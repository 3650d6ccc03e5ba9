//! The routes and the DNS setting of a client, as lists of commands.

use vstd::prelude::*;

use crate::commands::{
    arg_list, is_optional, is_required, may_run, must_run, optional_step, required_step,
    CommandStep, CommandStepView, ProgramRun,
};
use crate::ipv4::{ipv4_of, ipv4_text, ipv4_to_text, law_ipv4_round_trip};
use crate::models::{ClientConfig, ClientConfigView};
use crate::sessions::PeerAddr;
use crate::text::{text_eq, trim, trim_spec, views, words, words_spec};

verus! {

/// The word behind the first occurrence of `key` that has a word behind it.
pub open spec fn word_after(list: Seq<Seq<char>>, key: Seq<char>) -> Option<Seq<char>>
    decreases list.len(),
{
    if list.len() < 2 {
        None
    } else if list[0] == key {
        Some(list[1])
    } else {
        word_after(list.skip(1), key)
    }
}

/// The word behind the first occurrence of `key` that has a word behind it.
fn find_word_after(list: &Vec<String>, key: &str) -> (r: Option<String>)
    ensures
        match r {
            Some(word) => word_after(views(list@), key@) == Some(word@),
            None => word_after(views(list@), key@) is None,
        },
{
    let ghost all = views(list@);
    let n: usize = list.len();
    let mut i: usize = 0;
    assert(all.skip(0) =~= all);
    while i < n && n - i >= 2
        invariant
            i <= n,
            n == list@.len(),
            all == views(list@),
            word_after(all, key@) == word_after(all.skip(i as int), key@),
        decreases n - i,
    {
        assert(all.skip(i as int)[0] == list@[i as int]@);
        assert(all.skip(i as int)[1] == list@[i + 1]@);
        if text_eq(list[i].as_str(), key) {
            return Some(list[i + 1].clone());
        }
        assert(all.skip(i as int).skip(1) =~= all.skip(i + 1));
        i = i + 1;
    }
    None
}

/// What sets up the network of a client: commands to run in order, then a DNS setting that may
/// fail, then, where that succeeded, a DNS domain that may fail.
#[derive(Debug)]
pub struct LinuxNetworkPlan {
    pub routes: Vec<CommandStep>,
    pub dns: CommandStep,
    pub domain: CommandStep,
}

/// The view of [`LinuxNetworkPlan`].
pub struct LinuxNetworkPlanView {
    pub routes: Seq<CommandStepView>,
    pub dns: CommandStepView,
    pub domain: CommandStepView,
}

impl View for LinuxNetworkPlan {
    type V = LinuxNetworkPlanView;

    open spec fn view(&self) -> LinuxNetworkPlanView {
        LinuxNetworkPlanView {
            routes: views(self.routes@),
            dns: self.dns@,
            domain: self.domain@,
        }
    }
}

/// The route to the server keeps going through the default gateway that `ip route show default`
/// printed; everything else goes through the tunnel.
pub open spec fn linux_plan(
    config: ClientConfigView,
    server_ip: Seq<char>,
    route: Seq<char>,
) -> Result<
    LinuxNetworkPlanView,
    Seq<char>,
> {
    match word_after(words_spec(route), "via"@) {
        None => Err("unable to determine default gateway"@),
        Some(gateway) => match word_after(words_spec(route), "dev"@) {
            None => Err("unable to determine default interface"@),
            Some(iface) => Ok(
                LinuxNetworkPlanView {
                    routes: seq![
                        must_run(
                            "ip"@,
                            seq![
                                "route"@,
                                "replace"@,
                                server_ip + "/32"@,
                                "via"@,
                                gateway,
                                "dev"@,
                                iface,
                            ],
                        ),
                        must_run(
                            "ip"@,
                            seq!["route"@, "replace"@, "default"@, "dev"@, config.tun_name],
                        ),
                    ],
                    dns: may_run(
                        "resolvectl"@,
                        seq!["dns"@, config.tun_name, config.dns_server],
                    ),
                    domain: may_run("resolvectl"@, seq!["domain"@, config.tun_name, "~."@]),
                },
            ),
        },
    }
}

/// Whether the DNS domain is set, given how setting the DNS server went: only after it succeeded.
pub fn sets_domain(dns: ProgramRun) -> (r: bool)
    ensures
        r == (dns == ProgramRun::Succeeded),
{
    dns == ProgramRun::Succeeded
}

/// The commands that set up the network of a Linux client.
pub fn apply_linux_network_settings(config: &ClientConfig, server_ip: &str, route: &str) -> (r:
    Result<LinuxNetworkPlan, &'static str>)
    ensures
        match r {
            Ok(plan) => linux_plan(config@, server_ip@, route@) == Ok::<
                LinuxNetworkPlanView,
                Seq<char>,
            >(plan@),
            Err(message) => linux_plan(config@, server_ip@, route@) == Err::<
                LinuxNetworkPlanView,
                Seq<char>,
            >(message@),
        },
{
    let list = words(route);
    let gateway = match find_word_after(&list, "via") {
        Some(word) => word,
        None => {
            return Err("unable to determine default gateway");
        },
    };
    let iface = match find_word_after(&list, "dev") {
        Some(word) => word,
        None => {
            return Err("unable to determine default interface");
        },
    };
    let ghost expected = linux_plan(config@, server_ip@, route@)->Ok_0;
    let mut host = server_ip.to_owned();
    host.append("/32");
    let to_server = required_step(
        "ip",
        arg_list(
            ["route", "replace", host.as_str(), "via", gateway.as_str(), "dev", iface.as_str()],
        ),
    );
    let to_tunnel = required_step(
        "ip",
        arg_list(["route", "replace", "default", "dev", config.tun_name.as_str()]),
    );
    let dns = optional_step(
        "resolvectl",
        arg_list(["dns", config.tun_name.as_str(), config.dns_server.as_str()]),
    );
    let domain = optional_step(
        "resolvectl",
        arg_list(["domain", config.tun_name.as_str(), "~."]),
    );
    assert(to_server@.args =~= expected.routes[0].args);
    assert(to_tunnel@.args =~= expected.routes[1].args);
    assert(dns@.args =~= expected.dns.args);
    assert(domain@.args =~= expected.domain.args);
    let mut routes: Vec<CommandStep> = Vec::new();
    routes.push(to_server);
    routes.push(to_tunnel);
    let plan = LinuxNetworkPlan { routes, dns, domain };
    assert(plan@.routes =~= expected.routes);
    Ok(plan)
}

/// The address of the server as Windows routes need it: IPv4 only.
pub open spec fn windows_server_address(addr: PeerAddr) -> Result<Seq<char>, Seq<char>> {
    match addr {
        PeerAddr::V4 { ip, port } => Ok(ipv4_text(ip)),
        PeerAddr::V6 { ip, port, flowinfo, scope_id } => Err(
            "Windows auto-route setup currently expects an IPv4 server endpoint"@,
        ),
    }
}

/// The address of the server as Windows routes need it: IPv4 only.
pub fn windows_server_ip(addr: PeerAddr) -> (r: Result<String, &'static str>)
    ensures
        match r {
            Ok(text) => windows_server_address(addr) == Ok::<Seq<char>, Seq<char>>(text@),
            Err(message) => windows_server_address(addr) == Err::<Seq<char>, Seq<char>>(message@),
        },
{
    match addr {
        PeerAddr::V4 { ip, .. } => Ok(ipv4_to_text(ip)),
        PeerAddr::V6 { .. } => Err(
            "Windows auto-route setup currently expects an IPv4 server endpoint",
        ),
    }
}

/// The commands that set up the network of a Windows client.
pub open spec fn windows_plan(
    config: ClientConfigView,
    server_ip: Seq<char>,
    gateway: Seq<char>,
) -> Seq<
    CommandStepView,
> {
    seq![
        may_run("route"@, seq!["delete"@, server_ip]),
        must_run(
            "route"@,
            seq![
                "add"@,
                server_ip,
                "mask"@,
                "255.255.255.255"@,
                gateway,
                "metric"@,
                "5"@,
            ],
        ),
        may_run(
            "route"@,
            seq!["delete"@, "0.0.0.0"@, "mask"@, "0.0.0.0"@, config.dns_server],
        ),
        must_run(
            "route"@,
            seq![
                "add"@,
                "0.0.0.0"@,
                "mask"@,
                "0.0.0.0"@,
                config.dns_server,
                "metric"@,
                "5"@,
            ],
        ),
        must_run(
            "netsh"@,
            seq![
                "interface"@,
                "ipv4"@,
                "set"@,
                "dnsservers"@,
                "name="@ + config.tun_name,
                "static"@,
                config.dns_server,
                "primary"@,
            ],
        ),
    ]
}

/// The commands that set up the network of a Windows client.
pub fn apply_windows_network_settings(
    config: &ClientConfig,
    server_ip: &str,
    gateway: &str,
) -> (steps:
    Vec<CommandStep>)
    ensures
        views(steps@) == windows_plan(config@, server_ip@, gateway@),
{
    let ghost expected = windows_plan(config@, server_ip@, gateway@);
    let dns_server = config.dns_server.as_str();
    let mut name = String::from_str("name=");
    name.append(config.tun_name.as_str());
    let forget_server = optional_step("route", arg_list(["delete", server_ip]));
    let to_server = required_step(
        "route",
        arg_list(["add", server_ip, "mask", "255.255.255.255", gateway, "metric", "5"]),
    );
    let forget_default = optional_step(
        "route",
        arg_list(["delete", "0.0.0.0", "mask", "0.0.0.0", dns_server]),
    );
    let to_tunnel = required_step(
        "route",
        arg_list(["add", "0.0.0.0", "mask", "0.0.0.0", dns_server, "metric", "5"]),
    );
    let dns = required_step(
        "netsh",
        arg_list(
            [
                "interface",
                "ipv4",
                "set",
                "dnsservers",
                name.as_str(),
                "static",
                dns_server,
                "primary",
            ],
        ),
    );
    assert(forget_server@.args =~= expected[0].args);
    assert(to_server@.args =~= expected[1].args);
    assert(forget_default@.args =~= expected[2].args);
    assert(to_tunnel@.args =~= expected[3].args);
    assert(dns@.args =~= expected[4].args);
    let mut steps: Vec<CommandStep> = Vec::new();
    steps.push(forget_server);
    steps.push(to_server);
    steps.push(forget_default);
    steps.push(to_tunnel);
    steps.push(dns);
    assert(views(steps@) =~= expected);
    steps
}

/// The default gateway that a lookup printed, or the error that it failed with.
pub open spec fn gateway_of(success: bool, stdout: Seq<char>, stderr: Seq<char>) -> Result<
    Seq<char>,
    Seq<char>,
> {
    if !success {
        Err(trim_spec(stderr))
    } else if trim_spec(stdout).len() == 0 {
        Err("unable to find an IPv4 default gateway for Windows route setup"@)
    } else {
        Ok(trim_spec(stdout))
    }
}

/// The default gateway that a lookup printed, or the error that it failed with.
pub fn windows_default_gateway(success: bool, stdout: &str, stderr: &str) -> (r: Result<
    String,
    String,
>)
    ensures
        match r {
            Ok(gateway) => gateway_of(success, stdout@, stderr@) == Ok::<Seq<char>, Seq<char>>(
                gateway@,
            ),
            Err(message) => gateway_of(success, stdout@, stderr@) == Err::<Seq<char>, Seq<char>>(
                message@,
            ),
        },
{
    if !success {
        return Err(trim(stderr));
    }
    let gateway = trim(stdout);
    if gateway.as_str().is_empty() {
        Err(String::from_str("unable to find an IPv4 default gateway for Windows route setup"))
    } else {
        Ok(gateway)
    }
}

/// The word behind a key is found wherever the key first stands.
pub proof fn law_word_after_key(
    before: Seq<Seq<char>>,
    key: Seq<char>,
    word: Seq<char>,
    after: Seq<Seq<char>>,
)
    requires
        forall|i: int| 0 <= i < before.len() ==> (#[trigger] before[i]) != key,
    ensures
        word_after(before + seq![key, word] + after, key) == Some(word),
        word_after(before, key) is None,
    decreases before.len(),
{
    let list = before + seq![key, word] + after;
    if before.len() > 0 {
        assert(before[0] != key);
        assert(list.skip(1) =~= before.skip(1) + seq![key, word] + after);
        assert forall|i: int| 0 <= i < before.skip(1).len() implies (#[trigger] before.skip(1)[i])
            != key by {
            assert(before[i + 1] != key);
        }
        law_word_after_key(before.skip(1), key, word, after);
    }
}

/// The network of a Linux client: the server stays reachable through the gateway and the interface
/// of the default route, then everything else goes through the tunnel device, then the DNS server
/// of the configuration is set for it, for all domains. Without a gateway or an interface that is
/// an error.
pub proof fn law_linux_network(
    config: ClientConfigView,
    server_ip: Seq<char>,
    route: Seq<char>,
    gateway: Seq<char>,
    iface: Seq<char>,
)
    ensures
        word_after(words_spec(route), "via"@) == Some(gateway) && word_after(
            words_spec(route),
            "dev"@,
        ) == Some(iface) ==> ({
            &&& linux_plan(config, server_ip, route) matches Ok(plan)
            &&& plan.routes.len() == 2
            &&& is_required(
                plan.routes[0],
                "ip"@,
                seq!["route"@, "replace"@, server_ip + "/32"@, "via"@, gateway, "dev"@, iface],
            )
            &&& is_required(
                plan.routes[1],
                "ip"@,
                seq!["route"@, "replace"@, "default"@, "dev"@, config.tun_name],
            )
            &&& is_optional(
                plan.dns,
                "resolvectl"@,
                seq!["dns"@, config.tun_name, config.dns_server],
            )
            &&& is_optional(plan.domain, "resolvectl"@, seq!["domain"@, config.tun_name, "~."@])
        }),
        word_after(words_spec(route), "via"@) is None ==> linux_plan(config, server_ip, route)
            == Err::<LinuxNetworkPlanView, Seq<char>>("unable to determine default gateway"@),
        word_after(words_spec(route), "via"@) is Some && word_after(words_spec(route), "dev"@)
            is None ==> linux_plan(config, server_ip, route) == Err::<
            LinuxNetworkPlanView,
            Seq<char>,
        >("unable to determine default interface"@),
{
}

/// The network of a Windows client: the route to the server through the gateway and the default
/// route through the tunnel are each removed and added anew, then the DNS server of the
/// configuration is set on the tunnel device.
pub proof fn law_windows_network(
    config: ClientConfigView,
    server_ip: Seq<char>,
    gateway: Seq<char>,
)
    ensures
        ({
            let steps = windows_plan(config, server_ip, gateway);
            &&& steps.len() == 5
            &&& is_optional(steps[0], "route"@, seq!["delete"@, server_ip])
            &&& is_required(
                steps[1],
                "route"@,
                seq!["add"@, server_ip, "mask"@, "255.255.255.255"@, gateway, "metric"@, "5"@],
            )
            &&& is_optional(
                steps[2],
                "route"@,
                seq!["delete"@, "0.0.0.0"@, "mask"@, "0.0.0.0"@, config.dns_server],
            )
            &&& is_required(
                steps[3],
                "route"@,
                seq!["add"@, "0.0.0.0"@, "mask"@, "0.0.0.0"@, config.dns_server, "metric"@, "5"@],
            )
            &&& is_required(
                steps[4],
                "netsh"@,
                seq![
                    "interface"@,
                    "ipv4"@,
                    "set"@,
                    "dnsservers"@,
                    "name="@ + config.tun_name,
                    "static"@,
                    config.dns_server,
                    "primary"@,
                ],
            )
        }),
{
}

/// The gateway of a Windows client is what the lookup printed; a lookup that failed is told with its
/// errors, and one that printed nothing is an error too.
pub proof fn law_windows_gateway(stdout: Seq<char>, stderr: Seq<char>, addr: PeerAddr)
    ensures
        gateway_of(false, stdout, stderr) == Err::<Seq<char>, Seq<char>>(trim_spec(stderr)),
        trim_spec(stdout).len() > 0 ==> gateway_of(true, stdout, stderr) == Ok::<
            Seq<char>,
            Seq<char>,
        >(trim_spec(stdout)),
        trim_spec(stdout).len() == 0 ==> gateway_of(true, stdout, stderr) is Err,
        windows_server_address(addr) is Ok <==> addr is V4,
        addr matches PeerAddr::V4 { ip, port } ==> (windows_server_address(addr) matches Ok(text)
            && ipv4_of(text) == Some(ip)),
{
    if let PeerAddr::V4 { ip, port } = addr {
        law_ipv4_round_trip(ip);
    }
}

/// The view of [`LinuxNetworkPlan`] holds each field under its own name.
pub proof fn law_view_of_linux_network_plan(value: LinuxNetworkPlan)
    ensures
        value@.routes == views(value.routes@),
        value@.dns == value.dns@,
        value@.domain == value.domain@,
{
}

} // verus!
