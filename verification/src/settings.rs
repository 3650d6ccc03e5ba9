//! The settings of the network: their texts, their defaults, and the version that every change
//! raises.

use vstd::prelude::*;

use crate::decimal::{
    decimal, decimal_u64, law_decimal_round_trip, parse_i64, parse_int_spec, parse_u16, parse_u64,
};
use crate::json::{json_list_of, json_list_or_empty, json_list_text, to_json_list};
use crate::text::{
    lemma_trim_id, non_empty, option_view, split, split_spec, text_eq, trim, trim_spec, views,
    CharClass,
};
use crate::text_map::TextMap;

verus! {

/// The text of a setting, or the empty text.
pub open spec fn setting(settings: Map<Seq<char>, Seq<char>>, key: Seq<char>) -> Seq<char> {
    if settings.contains_key(key) {
        settings[key]
    } else {
        Seq::empty()
    }
}

/// The text of a setting, or the empty text.
pub fn settings_value(settings: &TextMap, key: &str) -> (r: String)
    requires
        settings.wf(),
    ensures
        r@ == setting(settings@, key@),
{
    match settings.get(key) {
        Some(value) => value,
        None => String::new(),
    }
}

/// How a switch is written.
pub open spec fn switch_text(value: bool) -> Seq<char> {
    if value {
        "true"@
    } else {
        "false"@
    }
}

/// How a switch is written.
pub fn bool_to_setting(value: bool) -> (r: &'static str)
    ensures
        r@ == switch_text(value),
{
    if value {
        "true"
    } else {
        "false"
    }
}

/// A switch as a number.
pub open spec fn switch_number(value: bool) -> i64 {
    if value {
        1
    } else {
        0
    }
}

/// A switch as a number.
pub fn bool_to_i64(value: bool) -> (r: i64)
    ensures
        r == switch_number(value),
{
    if value {
        1
    } else {
        0
    }
}

/// Whether a text says yes.
pub open spec fn says_yes(value: Seq<char>) -> bool {
    let t = trim_spec(value);
    t == "1"@ || t == "true"@ || t == "yes"@ || t == "on"@
}

/// Whether a text says yes: `1`, `true`, `yes` or `on`.
pub fn parse_bool(value: &str) -> (r: bool)
    ensures
        r == says_yes(value@),
{
    let trimmed = trim(value);
    text_eq(trimmed.as_str(), "1") || text_eq(trimmed.as_str(), "true") || text_eq(
        trimmed.as_str(),
        "yes",
    ) || text_eq(trimmed.as_str(), "on")
}

/// The number in a text within bounds, if there is one.
pub open spec fn optional_number(value: Seq<char>, min: int, max: int) -> Option<int> {
    match parse_int_spec(trim_spec(value), min, max) {
        Ok(n) => Some(n),
        Err(_) => None,
    }
}

/// The signed 64-bit number in a text, if there is one.
pub fn parse_optional_i64(value: &str) -> (r: Option<i64>)
    ensures
        match r {
            Some(n) => optional_number(value@, i64::MIN as int, i64::MAX as int) == Some(n as int),
            None => optional_number(value@, i64::MIN as int, i64::MAX as int) is None,
        },
{
    let trimmed = trim(value);
    if trimmed.as_str().is_empty() {
        return None;
    }
    match parse_i64(trimmed.as_str()) {
        Ok(n) => Some(n),
        Err(_) => None,
    }
}

/// The unsigned 16-bit number in a text, if there is one.
pub fn parse_optional_u16(value: &str) -> (r: Option<u16>)
    ensures
        match r {
            Some(n) => optional_number(value@, 0, u16::MAX as int) == Some(n as int),
            None => optional_number(value@, 0, u16::MAX as int) is None,
        },
{
    let trimmed = trim(value);
    if trimmed.as_str().is_empty() {
        return None;
    }
    match parse_u16(trimmed.as_str()) {
        Ok(n) => Some(n),
        Err(_) => None,
    }
}

/// A trimmed text, unless it is blank.
pub open spec fn unless_blank(value: Seq<char>) -> Option<Seq<char>> {
    if trim_spec(value).len() == 0 {
        None
    } else {
        Some(trim_spec(value))
    }
}

/// A trimmed text, unless it is blank.
pub fn empty_to_none(value: &str) -> (r: Option<String>)
    ensures
        option_view(r) == unless_blank(value@),
{
    let trimmed = trim(value);
    if trimmed.as_str().is_empty() {
        None
    } else {
        Some(trimmed)
    }
}

/// A trimmed optional text, unless it is blank.
pub open spec fn clean_text(value: Option<Seq<char>>) -> Option<Seq<char>> {
    match value {
        Some(text) => unless_blank(text),
        None => None,
    }
}

/// A trimmed optional text, unless it is blank.
pub fn clean_optional_text(value: &Option<String>) -> (r: Option<String>)
    ensures
        option_view(r) == clean_text(option_view(*value)),
{
    match value {
        Some(text) => empty_to_none(text.as_str()),
        None => None,
    }
}

/// Each text of a list, trimmed.
pub open spec fn trimmed_all(list: Seq<Seq<char>>) -> Seq<Seq<char>> {
    Seq::new(list.len(), |i: int| trim_spec(list[i]))
}

/// The lines of a text, trimmed, without the blank ones.
pub open spec fn lines_of(raw: Seq<char>) -> Seq<Seq<char>> {
    non_empty(trimmed_all(split_spec(raw, CharClass::LineFeed)))
}

/// The lines of a text, trimmed, without the blank ones.
pub fn parse_lines(raw: &str) -> (r: Vec<String>)
    ensures
        views(r@) == lines_of(raw@),
{
    let pieces = split(raw, CharClass::LineFeed);
    let n: usize = pieces.len();
    let ghost all = trimmed_all(views(pieces@));
    let mut trimmed: Vec<String> = Vec::new();
    assert(views(trimmed@) =~= all.take(0));
    for i in 0..n
        invariant
            n == pieces@.len(),
            all == trimmed_all(views(pieces@)),
            views(trimmed@) == all.take(i as int),
    {
        let ghost before = views(trimmed@);
        trimmed.push(trim(pieces[i].as_str()));
        assert(views(trimmed@) =~= before.push(all[i as int]));
        assert(all.take(i + 1) =~= before.push(all[i as int]));
    }
    assert(all.take(n as int) =~= all);
    crate::text::keep_non_empty(trimmed)
}

/// What a missing row is answered with.
pub open spec fn no_rows() -> Seq<char> {
    "Query returned no rows"@
}

/// The version of the configuration: a missing or malformed one is an error.
pub open spec fn config_version(settings: Map<Seq<char>, Seq<char>>) -> Result<int, Seq<char>> {
    if !settings.contains_key("config_version"@) {
        Err(no_rows())
    } else {
        match parse_int_spec(settings["config_version"@], 0, u64::MAX as int) {
            Ok(n) => Ok(n),
            Err(error) => Err(error.message_spec()),
        }
    }
}

/// The version of the configuration.
pub fn current_config_version(settings: &TextMap) -> (r: Result<u64, String>)
    requires
        settings.wf(),
    ensures
        match r {
            Ok(version) => config_version(settings@) == Ok::<int, Seq<char>>(version as int),
            Err(message) => config_version(settings@) == Err::<int, Seq<char>>(message@),
        },
{
    match settings.get("config_version") {
        Some(text) => match parse_u64(text.as_str()) {
            Ok(version) => Ok(version),
            Err(error) => Err(error.message().to_owned()),
        },
        None => Err(String::from_str("Query returned no rows")),
    }
}

/// Whether the version can still be raised.
pub open spec fn version_can_rise(settings: Map<Seq<char>, Seq<char>>) -> bool {
    config_version(settings) matches Ok(version) ==> version < u64::MAX
}

/// Whether the version can still be raised.
pub fn config_version_can_rise(settings: &TextMap) -> (r: bool)
    requires
        settings.wf(),
    ensures
        r == version_can_rise(settings@),
{
    match current_config_version(settings) {
        Ok(version) => version < 0xffff_ffff_ffff_ffff,
        Err(_) => true,
    }
}

/// The settings with the next version.
pub open spec fn with_next_version(settings: Map<Seq<char>, Seq<char>>) -> Map<
    Seq<char>,
    Seq<char>,
> {
    settings.insert("config_version"@, decimal(config_version(settings)->Ok_0 + 1))
}

/// Raises the version of the configuration. Where there is none, that is an error, and nothing
/// changes.
pub fn bump_config_version(settings: &mut TextMap) -> (r: Result<u64, String>)
    requires
        old(settings).wf(),
        version_can_rise(old(settings)@),
    ensures
        final(settings).wf(),
        match r {
            Ok(next) => config_version(old(settings)@) == Ok::<int, Seq<char>>(next - 1)
                && final(settings)@ == with_next_version(old(settings)@),
            Err(message) => config_version(old(settings)@) == Err::<int, Seq<char>>(message@)
                && final(settings)@ == old(settings)@,
        },
{
    match current_config_version(settings) {
        Ok(version) => {
            let next: u64 = version + 1;
            let text = decimal_u64(next);
            settings.insert("config_version", text.as_str());
            Ok(next)
        },
        Err(message) => Err(message),
    }
}

/// Raising the version makes it one higher.
pub proof fn law_version_rises(settings: Map<Seq<char>, Seq<char>>)
    requires
        config_version(settings) is Ok,
        version_can_rise(settings),
    ensures
        config_version(with_next_version(settings)) == Ok::<int, Seq<char>>(
            config_version(settings)->Ok_0 + 1,
        ),
{
    lemma_version_bounds(settings);
    law_decimal_round_trip((config_version(settings)->Ok_0 + 1) as nat, u64::MAX as int);
}

/// A version is never negative.
pub proof fn lemma_version_bounds(settings: Map<Seq<char>, Seq<char>>)
    requires
        config_version(settings) is Ok,
    ensures
        0 <= config_version(settings)->Ok_0 <= u64::MAX,
{
    let s = settings["config_version"@];
    let digits = if s[0] == '+' {
        s.skip(1)
    } else {
        s
    };
    crate::decimal::lemma_read_digits_bounds(digits, u64::MAX as int);
}

/// A setting that is there stays; one that is missing gets a default.
#[verifier::opaque]
pub open spec fn with_default(
    settings: Map<Seq<char>, Seq<char>>,
    key: Seq<char>,
    value: Seq<char>,
) -> Map<Seq<char>, Seq<char>> {
    if settings.contains_key(key) {
        settings
    } else {
        settings.insert(key, value)
    }
}

/// The settings with a default for each one that is missing.
pub open spec fn with_defaults(settings: Map<Seq<char>, Seq<char>>) -> Map<Seq<char>, Seq<char>> {
    let s = with_default(settings, "config_version"@, "1"@);
    let s = with_default(s, "listen_addr"@, "0.0.0.0:9000"@);
    let s = with_default(s, "public_endpoint"@, "127.0.0.1:9000"@);
    let s = with_default(s, "tun_name"@, "ntz0"@);
    let s = with_default(s, "tun_address"@, "10.44.0.1"@);
    let s = with_default(s, "tun_prefix"@, "24"@);
    let s = with_default(s, "client_cidr"@, "10.44.0.0/24"@);
    let s = with_default(s, "mtu"@, "1400"@);
    let s = with_default(s, "nat_iface"@, "eth0"@);
    let s = with_default(s, "setup_nat"@, "true"@);
    let s = with_default(s, "max_clients"@, "32"@);
    let s = with_default(s, "doh_url"@, "https://1.1.1.1/dns-query"@);
    let s = with_default(s, "dns_bind_addr"@, "10.44.0.1:53"@);
    let s = with_default(s, "blocked_ips_json"@, "[]"@);
    let s = with_default(s, "protected_ips_json"@, "[]"@);
    with_default(s, "egress_ips_json"@, "[]"@)
}

/// Gives each missing setting its default.
pub fn seed_settings(settings: &mut TextMap)
    requires
        old(settings).wf(),
    ensures
        final(settings).wf(),
        final(settings)@ == with_defaults(old(settings)@),
{
    reveal(with_default);
    settings.insert_if_absent("config_version", "1");
    settings.insert_if_absent("listen_addr", "0.0.0.0:9000");
    settings.insert_if_absent("public_endpoint", "127.0.0.1:9000");
    settings.insert_if_absent("tun_name", "ntz0");
    settings.insert_if_absent("tun_address", "10.44.0.1");
    settings.insert_if_absent("tun_prefix", "24");
    settings.insert_if_absent("client_cidr", "10.44.0.0/24");
    settings.insert_if_absent("mtu", "1400");
    settings.insert_if_absent("nat_iface", "eth0");
    settings.insert_if_absent("setup_nat", "true");
    settings.insert_if_absent("max_clients", "32");
    settings.insert_if_absent("doh_url", "https://1.1.1.1/dns-query");
    settings.insert_if_absent("dns_bind_addr", "10.44.0.1:53");
    settings.insert_if_absent("blocked_ips_json", "[]");
    settings.insert_if_absent("protected_ips_json", "[]");
    settings.insert_if_absent("egress_ips_json", "[]");
}

/// What a default keeps and adds.
proof fn lemma_default(settings: Map<Seq<char>, Seq<char>>, key: Seq<char>, value: Seq<char>)
    ensures
        with_default(settings, key, value).contains_key(key),
        forall|k: Seq<char>| #[trigger]
            settings.contains_key(k) ==> with_default(settings, key, value).contains_key(k)
                && with_default(settings, key, value)[k] == settings[k],
{
    reveal(with_default);
}

/// Defaults never replace a setting, and giving them twice is giving them once.
pub proof fn law_defaults_keep_settings(settings: Map<Seq<char>, Seq<char>>, key: Seq<char>)
    ensures
        settings.contains_key(key) ==> with_defaults(settings).contains_key(key) && with_defaults(
            settings,
        )[key] == settings[key],
        with_defaults(with_defaults(settings)) == with_defaults(settings),
{
    let s0 = settings;
    let s1 = with_default(s0, "config_version"@, "1"@);
    lemma_default(s0, "config_version"@, "1"@);
    let s2 = with_default(s1, "listen_addr"@, "0.0.0.0:9000"@);
    lemma_default(s1, "listen_addr"@, "0.0.0.0:9000"@);
    let s3 = with_default(s2, "public_endpoint"@, "127.0.0.1:9000"@);
    lemma_default(s2, "public_endpoint"@, "127.0.0.1:9000"@);
    let s4 = with_default(s3, "tun_name"@, "ntz0"@);
    lemma_default(s3, "tun_name"@, "ntz0"@);
    let s5 = with_default(s4, "tun_address"@, "10.44.0.1"@);
    lemma_default(s4, "tun_address"@, "10.44.0.1"@);
    let s6 = with_default(s5, "tun_prefix"@, "24"@);
    lemma_default(s5, "tun_prefix"@, "24"@);
    let s7 = with_default(s6, "client_cidr"@, "10.44.0.0/24"@);
    lemma_default(s6, "client_cidr"@, "10.44.0.0/24"@);
    let s8 = with_default(s7, "mtu"@, "1400"@);
    lemma_default(s7, "mtu"@, "1400"@);
    let s9 = with_default(s8, "nat_iface"@, "eth0"@);
    lemma_default(s8, "nat_iface"@, "eth0"@);
    let s10 = with_default(s9, "setup_nat"@, "true"@);
    lemma_default(s9, "setup_nat"@, "true"@);
    let s11 = with_default(s10, "max_clients"@, "32"@);
    lemma_default(s10, "max_clients"@, "32"@);
    let s12 = with_default(s11, "doh_url"@, "https://1.1.1.1/dns-query"@);
    lemma_default(s11, "doh_url"@, "https://1.1.1.1/dns-query"@);
    let s13 = with_default(s12, "dns_bind_addr"@, "10.44.0.1:53"@);
    lemma_default(s12, "dns_bind_addr"@, "10.44.0.1:53"@);
    let s14 = with_default(s13, "blocked_ips_json"@, "[]"@);
    lemma_default(s13, "blocked_ips_json"@, "[]"@);
    let s15 = with_default(s14, "protected_ips_json"@, "[]"@);
    lemma_default(s14, "protected_ips_json"@, "[]"@);
    let s16 = with_default(s15, "egress_ips_json"@, "[]"@);
    lemma_default(s15, "egress_ips_json"@, "[]"@);
    let t = s16;
    assert(with_default(t, "config_version"@, "1"@) == t) by {
        reveal(with_default);
        assert(s1.contains_key("config_version"@));
    }
    assert(with_default(t, "listen_addr"@, "0.0.0.0:9000"@) == t) by {
        reveal(with_default);
        assert(s2.contains_key("listen_addr"@));
    }
    assert(with_default(t, "public_endpoint"@, "127.0.0.1:9000"@) == t) by {
        reveal(with_default);
        assert(s3.contains_key("public_endpoint"@));
    }
    assert(with_default(t, "tun_name"@, "ntz0"@) == t) by {
        reveal(with_default);
        assert(s4.contains_key("tun_name"@));
    }
    assert(with_default(t, "tun_address"@, "10.44.0.1"@) == t) by {
        reveal(with_default);
        assert(s5.contains_key("tun_address"@));
    }
    assert(with_default(t, "tun_prefix"@, "24"@) == t) by {
        reveal(with_default);
        assert(s6.contains_key("tun_prefix"@));
    }
    assert(with_default(t, "client_cidr"@, "10.44.0.0/24"@) == t) by {
        reveal(with_default);
        assert(s7.contains_key("client_cidr"@));
    }
    assert(with_default(t, "mtu"@, "1400"@) == t) by {
        reveal(with_default);
        assert(s8.contains_key("mtu"@));
    }
    assert(with_default(t, "nat_iface"@, "eth0"@) == t) by {
        reveal(with_default);
        assert(s9.contains_key("nat_iface"@));
    }
    assert(with_default(t, "setup_nat"@, "true"@) == t) by {
        reveal(with_default);
        assert(s10.contains_key("setup_nat"@));
    }
    assert(with_default(t, "max_clients"@, "32"@) == t) by {
        reveal(with_default);
        assert(s11.contains_key("max_clients"@));
    }
    assert(with_default(t, "doh_url"@, "https://1.1.1.1/dns-query"@) == t) by {
        reveal(with_default);
        assert(s12.contains_key("doh_url"@));
    }
    assert(with_default(t, "dns_bind_addr"@, "10.44.0.1:53"@) == t) by {
        reveal(with_default);
        assert(s13.contains_key("dns_bind_addr"@));
    }
    assert(with_default(t, "blocked_ips_json"@, "[]"@) == t) by {
        reveal(with_default);
        assert(s14.contains_key("blocked_ips_json"@));
    }
    assert(with_default(t, "protected_ips_json"@, "[]"@) == t) by {
        reveal(with_default);
        assert(s15.contains_key("protected_ips_json"@));
    }
    assert(with_default(t, "egress_ips_json"@, "[]"@) == t) by {
        reveal(with_default);
        assert(s16.contains_key("egress_ips_json"@));
    }
}

/// The form that changes the settings of the whole network.
#[derive(Debug)]
pub struct GlobalSettingsForm {
    pub listen_addr: String,
    pub public_endpoint: String,
    pub tun_name: String,
    pub tun_address: String,
    pub tun_prefix: u8,
    pub client_cidr: String,
    pub mtu: String,
    pub nat_iface: String,
    pub setup_nat: Option<String>,
    pub max_clients: usize,
    pub doh_url: String,
    pub dns_bind_addr: String,
    pub blocked_ips: String,
    pub protected_ips: String,
    pub egress_ips: String,
}

/// The settings that a form asks for.
pub open spec fn with_form(settings: Map<Seq<char>, Seq<char>>, form: GlobalSettingsForm) -> Map<
    Seq<char>,
    Seq<char>,
> {
    settings.insert("listen_addr"@, trim_spec(form.listen_addr@)).insert(
        "public_endpoint"@,
        trim_spec(form.public_endpoint@),
    ).insert("tun_name"@, trim_spec(form.tun_name@)).insert(
        "tun_address"@,
        trim_spec(form.tun_address@),
    ).insert("tun_prefix"@, decimal(form.tun_prefix as int)).insert(
        "client_cidr"@,
        trim_spec(form.client_cidr@),
    ).insert("mtu"@, trim_spec(form.mtu@)).insert("nat_iface"@, trim_spec(form.nat_iface@)).insert(
        "setup_nat"@,
        switch_text(form.setup_nat is Some),
    ).insert("max_clients"@, decimal(form.max_clients as int)).insert(
        "doh_url"@,
        trim_spec(form.doh_url@),
    ).insert("dns_bind_addr"@, trim_spec(form.dns_bind_addr@)).insert(
        "blocked_ips_json"@,
        json_list_text(lines_of(form.blocked_ips@)),
    ).insert("protected_ips_json"@, json_list_text(lines_of(form.protected_ips@))).insert(
        "egress_ips_json"@,
        json_list_text(lines_of(form.egress_ips@)),
    )
}

/// A form leaves the version alone.
proof fn lemma_form_keeps_version(settings: Map<Seq<char>, Seq<char>>, form: GlobalSettingsForm)
    ensures
        config_version(with_form(settings, form)) == config_version(settings),
{
    reveal_strlit("config_version");
    reveal_strlit("listen_addr");
    reveal_strlit("public_endpoint");
    reveal_strlit("tun_name");
    reveal_strlit("tun_address");
    reveal_strlit("tun_prefix");
    reveal_strlit("client_cidr");
    reveal_strlit("mtu");
    reveal_strlit("nat_iface");
    reveal_strlit("setup_nat");
    reveal_strlit("max_clients");
    reveal_strlit("doh_url");
    reveal_strlit("dns_bind_addr");
    reveal_strlit("blocked_ips_json");
    reveal_strlit("protected_ips_json");
    reveal_strlit("egress_ips_json");
    assert("config_version"@.len() == 14);
    assert("listen_addr"@.len() == 11);
    assert("public_endpoint"@.len() == 15);
    assert("tun_name"@.len() == 8);
    assert("tun_address"@.len() == 11);
    assert("tun_prefix"@.len() == 10);
    assert("client_cidr"@.len() == 11);
    assert("mtu"@.len() == 3);
    assert("nat_iface"@.len() == 9);
    assert("setup_nat"@.len() == 9);
    assert("max_clients"@.len() == 11);
    assert("doh_url"@.len() == 7);
    assert("dns_bind_addr"@.len() == 13);
    assert("blocked_ips_json"@.len() == 16);
    assert("protected_ips_json"@.len() == 18);
    assert("egress_ips_json"@.len() == 15);
}

/// The JSON text of the lines of a text, which reads back as these lines.
fn lines_to_json(raw: &str) -> (r: Result<String, String>)
    ensures
        r is Ok,
        r->Ok_0@ == json_list_text(lines_of(raw@)),
        json_list_of(r->Ok_0@) == Ok::<Seq<Seq<char>>, Seq<char>>(lines_of(raw@)),
{
    let lines = parse_lines(raw);
    to_json_list(&lines)
}

/// Whether the lists that a form holds are read back as the lines of the form.
pub open spec fn lists_read_back(form: GlobalSettingsForm) -> bool {
    &&& json_list_of(json_list_text(lines_of(form.blocked_ips@))) == Ok::<
        Seq<Seq<char>>,
        Seq<char>,
    >(lines_of(form.blocked_ips@))
    &&& json_list_of(json_list_text(lines_of(form.protected_ips@))) == Ok::<
        Seq<Seq<char>>,
        Seq<char>,
    >(lines_of(form.protected_ips@))
    &&& json_list_of(json_list_text(lines_of(form.egress_ips@))) == Ok::<
        Seq<Seq<char>>,
        Seq<char>,
    >(lines_of(form.egress_ips@))
}

/// Takes over the settings of a form, and raises the version. Where there is no version, that is an
/// error, and nothing changes.
pub fn update_settings(settings: &mut TextMap, form: &GlobalSettingsForm) -> (r: Result<(), String>)
    requires
        old(settings).wf(),
        version_can_rise(old(settings)@),
    ensures
        final(settings).wf(),
        match r {
            Ok(_) => config_version(old(settings)@) is Ok && final(settings)@ == with_next_version(
                with_form(old(settings)@, *form),
            ) && lists_read_back(*form),
            Err(message) => config_version(old(settings)@) == Err::<int, Seq<char>>(message@)
                && final(settings)@ == old(settings)@,
        },
{
    if let Err(message) = current_config_version(settings) {
        return Err(message);
    }
    let blocked = lines_to_json(form.blocked_ips.as_str());
    let protected = lines_to_json(form.protected_ips.as_str());
    let egress = lines_to_json(form.egress_ips.as_str());
    if let (Ok(blocked), Ok(protected), Ok(egress)) = (blocked, protected, egress) {
        settings.insert("listen_addr", trim(form.listen_addr.as_str()).as_str());
        settings.insert("public_endpoint", trim(form.public_endpoint.as_str()).as_str());
        settings.insert("tun_name", trim(form.tun_name.as_str()).as_str());
        settings.insert("tun_address", trim(form.tun_address.as_str()).as_str());
        settings.insert("tun_prefix", decimal_u64(form.tun_prefix as u64).as_str());
        settings.insert("client_cidr", trim(form.client_cidr.as_str()).as_str());
        settings.insert("mtu", trim(form.mtu.as_str()).as_str());
        settings.insert("nat_iface", trim(form.nat_iface.as_str()).as_str());
        settings.insert("setup_nat", bool_to_setting(form.setup_nat.is_some()));
        settings.insert("max_clients", decimal_u64(form.max_clients as u64).as_str());
        settings.insert("doh_url", trim(form.doh_url.as_str()).as_str());
        settings.insert("dns_bind_addr", trim(form.dns_bind_addr.as_str()).as_str());
        settings.insert("blocked_ips_json", blocked.as_str());
        settings.insert("protected_ips_json", protected.as_str());
        settings.insert("egress_ips_json", egress.as_str());
        proof {
            lemma_form_keeps_version(old(settings)@, *form);
        }
        match bump_config_version(settings) {
            Ok(_) => Ok(()),
            Err(message) => Err(message),
        }
    } else {
        Err(String::new())
    }
}

/// The lists of a form are read back from the saved settings line by line, and the version is one
/// higher than before.
pub proof fn law_saved_form_reads_back(
    settings: Map<Seq<char>, Seq<char>>,
    form: GlobalSettingsForm,
)
    requires
        config_version(settings) is Ok,
        version_can_rise(settings),
        lists_read_back(form),
    ensures
        ({
            let after = with_next_version(with_form(settings, form));
            &&& json_list_or_empty(setting(after, "blocked_ips_json"@)) == lines_of(
                form.blocked_ips@,
            )
            &&& json_list_or_empty(setting(after, "protected_ips_json"@)) == lines_of(
                form.protected_ips@,
            )
            &&& json_list_or_empty(setting(after, "egress_ips_json"@)) == lines_of(form.egress_ips@)
            &&& config_version(after) == Ok::<int, Seq<char>>(config_version(settings)->Ok_0 + 1)
        }),
{
    lemma_form_keeps_version(settings, form);
    law_version_rises(with_form(settings, form));
    reveal_strlit("config_version");
    reveal_strlit("blocked_ips_json");
    reveal_strlit("protected_ips_json");
    reveal_strlit("egress_ips_json");
    assert("config_version"@.len() == 14);
    assert("blocked_ips_json"@.len() == 16);
    assert("protected_ips_json"@.len() == 18);
    assert("egress_ips_json"@.len() == 15);
}

/// What tells the names of the settings apart: their lengths, or a character.
pub proof fn lemma_setting_names()
    ensures
        "config_version"@.len() == 14,
        "listen_addr"@.len() == 11,
        "public_endpoint"@.len() == 15,
        "tun_name"@.len() == 8,
        "tun_address"@.len() == 11,
        "tun_prefix"@.len() == 10,
        "client_cidr"@.len() == 11,
        "mtu"@.len() == 3,
        "nat_iface"@.len() == 9,
        "setup_nat"@.len() == 9,
        "max_clients"@.len() == 11,
        "doh_url"@.len() == 7,
        "dns_bind_addr"@.len() == 13,
        "blocked_ips_json"@.len() == 16,
        "protected_ips_json"@.len() == 18,
        "egress_ips_json"@.len() == 15,
        "listen_addr"@[0] != "tun_address"@[0],
        "listen_addr"@[0] != "client_cidr"@[0],
        "listen_addr"@[0] != "max_clients"@[0],
        "public_endpoint"@[0] != "egress_ips_json"@[0],
        "tun_address"@[0] != "client_cidr"@[0],
        "tun_address"@[0] != "max_clients"@[0],
        "client_cidr"@[0] != "max_clients"@[0],
        "nat_iface"@[0] != "setup_nat"@[0],
{
    reveal_strlit("config_version");
    reveal_strlit("listen_addr");
    reveal_strlit("public_endpoint");
    reveal_strlit("tun_name");
    reveal_strlit("tun_address");
    reveal_strlit("tun_prefix");
    reveal_strlit("client_cidr");
    reveal_strlit("mtu");
    reveal_strlit("nat_iface");
    reveal_strlit("setup_nat");
    reveal_strlit("max_clients");
    reveal_strlit("doh_url");
    reveal_strlit("dns_bind_addr");
    reveal_strlit("blocked_ips_json");
    reveal_strlit("protected_ips_json");
    reveal_strlit("egress_ips_json");
}

/// Whether a value is what the settings hold under a name: the text there, or the empty text where
/// there is none.
pub open spec fn is_set_to(
    settings: Map<Seq<char>, Seq<char>>,
    name: Seq<char>,
    value: Seq<char>,
) -> bool {
    if settings.contains_key(name) {
        value == settings[name]
    } else {
        value.len() == 0
    }
}

/// A setting is read as what the settings hold under its name.
pub proof fn law_settings_are_read_by_name(settings: Map<Seq<char>, Seq<char>>, name: Seq<char>)
    ensures
        is_set_to(settings, name, setting(settings, name)),
{
}

/// Whether a map holds a text under a name.
pub open spec fn saved_as(
    settings: Map<Seq<char>, Seq<char>>,
    name: Seq<char>,
    value: Seq<char>,
) -> bool {
    settings.contains_key(name) && settings[name] == value
}

/// A form is saved field by field: each setting has the trimmed text, the number or the switch of
/// the field of its name, the three lists have the JSON of the lines of theirs, and every other
/// setting stays as it was, but for the version, which rises by one.
pub proof fn law_form_is_saved_by_name(
    settings: Map<Seq<char>, Seq<char>>,
    form: GlobalSettingsForm,
    other: Seq<char>,
)
    requires
        config_version(settings) is Ok,
        version_can_rise(settings),
    ensures
        ({
            let after = with_next_version(with_form(settings, form));
            &&& saved_as(after, "listen_addr"@, trim_spec(form.listen_addr@))
            &&& saved_as(after, "public_endpoint"@, trim_spec(form.public_endpoint@))
            &&& saved_as(after, "tun_name"@, trim_spec(form.tun_name@))
            &&& saved_as(after, "tun_address"@, trim_spec(form.tun_address@))
            &&& saved_as(after, "client_cidr"@, trim_spec(form.client_cidr@))
            &&& saved_as(after, "mtu"@, trim_spec(form.mtu@))
            &&& saved_as(after, "nat_iface"@, trim_spec(form.nat_iface@))
            &&& saved_as(after, "doh_url"@, trim_spec(form.doh_url@))
            &&& saved_as(after, "dns_bind_addr"@, trim_spec(form.dns_bind_addr@))
            &&& saved_as(after, "tun_prefix"@, decimal(form.tun_prefix as int))
            &&& saved_as(after, "max_clients"@, decimal(form.max_clients as int))
            &&& saved_as(after, "setup_nat"@, "true"@) <==> form.setup_nat is Some
            &&& saved_as(after, "setup_nat"@, "false"@) <==> form.setup_nat is None
            &&& saved_as(after, "blocked_ips_json"@, json_list_text(lines_of(form.blocked_ips@)))
            &&& saved_as(
                after,
                "protected_ips_json"@,
                json_list_text(lines_of(form.protected_ips@)),
            )
            &&& saved_as(after, "egress_ips_json"@, json_list_text(lines_of(form.egress_ips@)))
            &&& config_version(after) == Ok::<int, Seq<char>>(config_version(settings)->Ok_0 + 1)
            &&& other != "config_version"@ && other != "listen_addr"@
                && other != "public_endpoint"@ && other != "tun_name"@ && other != "tun_address"@
                && other != "tun_prefix"@ && other != "client_cidr"@ && other != "mtu"@
                && other != "nat_iface"@ && other != "setup_nat"@ && other != "max_clients"@
                && other != "doh_url"@ && other != "dns_bind_addr"@
                && other != "blocked_ips_json"@ && other != "protected_ips_json"@
                && other != "egress_ips_json"@ ==> after.contains_key(other)
                == settings.contains_key(other) && (settings.contains_key(other) ==> after[other]
                == settings[other])
        }),
{
    lemma_setting_names();
    reveal_strlit("true");
    reveal_strlit("false");
    assert("true"@.len() == 4);
    assert("false"@.len() == 5);
    lemma_form_keeps_version(settings, form);
    law_version_rises(with_form(settings, form));
}

/// Whether a missing setting gets a default, and one that is there stays.
pub open spec fn defaults_to(
    settings: Map<Seq<char>, Seq<char>>,
    name: Seq<char>,
    value: Seq<char>,
) -> bool {
    saved_as(
        with_defaults(settings),
        name,
        if settings.contains_key(name) {
            settings[name]
        } else {
            value
        },
    )
}

/// What a default changes: the setting of its name alone.
proof fn lemma_default_changes_one(
    settings: Map<Seq<char>, Seq<char>>,
    key: Seq<char>,
    value: Seq<char>,
)
    ensures
        saved_as(
            with_default(settings, key, value),
            key,
            if settings.contains_key(key) {
                settings[key]
            } else {
                value
            },
        ),
        forall|k: Seq<char>|
            #![trigger with_default(settings, key, value).contains_key(k)]
            #![trigger with_default(settings, key, value)[k]]
            k != key ==> with_default(settings, key, value).contains_key(k)
                == settings.contains_key(k) && with_default(settings, key, value)[k] == settings[k],
{
    reveal(with_default);
}

/// The settings of a new network.
#[verifier::rlimit(60)]
pub proof fn law_default_settings(settings: Map<Seq<char>, Seq<char>>, other: Seq<char>)
    ensures
        defaults_to(settings, "config_version"@, "1"@),
        defaults_to(settings, "listen_addr"@, "0.0.0.0:9000"@),
        defaults_to(settings, "public_endpoint"@, "127.0.0.1:9000"@),
        defaults_to(settings, "tun_name"@, "ntz0"@),
        defaults_to(settings, "tun_address"@, "10.44.0.1"@),
        defaults_to(settings, "tun_prefix"@, "24"@),
        defaults_to(settings, "client_cidr"@, "10.44.0.0/24"@),
        defaults_to(settings, "mtu"@, "1400"@),
        defaults_to(settings, "nat_iface"@, "eth0"@),
        defaults_to(settings, "setup_nat"@, "true"@),
        defaults_to(settings, "max_clients"@, "32"@),
        defaults_to(settings, "doh_url"@, "https://1.1.1.1/dns-query"@),
        defaults_to(settings, "dns_bind_addr"@, "10.44.0.1:53"@),
        defaults_to(settings, "blocked_ips_json"@, "[]"@),
        defaults_to(settings, "protected_ips_json"@, "[]"@),
        defaults_to(settings, "egress_ips_json"@, "[]"@),
        other != "config_version"@ && other != "listen_addr"@ && other != "public_endpoint"@
            && other != "tun_name"@ && other != "tun_address"@ && other != "tun_prefix"@
            && other != "client_cidr"@ && other != "mtu"@ && other != "nat_iface"@
            && other != "setup_nat"@ && other != "max_clients"@ && other != "doh_url"@
            && other != "dns_bind_addr"@ && other != "blocked_ips_json"@
            && other != "protected_ips_json"@
            && other != "egress_ips_json"@ ==> with_defaults(settings).contains_key(
            other,
        ) == settings.contains_key(other) && with_defaults(settings)[other] == settings[other],
{
    lemma_setting_names();
    let s1 = with_default(settings, "config_version"@, "1"@);
    let s2 = with_default(s1, "listen_addr"@, "0.0.0.0:9000"@);
    let s3 = with_default(s2, "public_endpoint"@, "127.0.0.1:9000"@);
    let s4 = with_default(s3, "tun_name"@, "ntz0"@);
    let s5 = with_default(s4, "tun_address"@, "10.44.0.1"@);
    let s6 = with_default(s5, "tun_prefix"@, "24"@);
    let s7 = with_default(s6, "client_cidr"@, "10.44.0.0/24"@);
    let s8 = with_default(s7, "mtu"@, "1400"@);
    let s9 = with_default(s8, "nat_iface"@, "eth0"@);
    let s10 = with_default(s9, "setup_nat"@, "true"@);
    let s11 = with_default(s10, "max_clients"@, "32"@);
    let s12 = with_default(s11, "doh_url"@, "https://1.1.1.1/dns-query"@);
    let s13 = with_default(s12, "dns_bind_addr"@, "10.44.0.1:53"@);
    let s14 = with_default(s13, "blocked_ips_json"@, "[]"@);
    let s15 = with_default(s14, "protected_ips_json"@, "[]"@);
    let s16 = with_default(s15, "egress_ips_json"@, "[]"@);
    lemma_default_changes_one(settings, "config_version"@, "1"@);
    lemma_default_changes_one(s1, "listen_addr"@, "0.0.0.0:9000"@);
    lemma_default_changes_one(s2, "public_endpoint"@, "127.0.0.1:9000"@);
    lemma_default_changes_one(s3, "tun_name"@, "ntz0"@);
    lemma_default_changes_one(s4, "tun_address"@, "10.44.0.1"@);
    lemma_default_changes_one(s5, "tun_prefix"@, "24"@);
    lemma_default_changes_one(s6, "client_cidr"@, "10.44.0.0/24"@);
    lemma_default_changes_one(s7, "mtu"@, "1400"@);
    lemma_default_changes_one(s8, "nat_iface"@, "eth0"@);
    lemma_default_changes_one(s9, "setup_nat"@, "true"@);
    lemma_default_changes_one(s10, "max_clients"@, "32"@);
    lemma_default_changes_one(s11, "doh_url"@, "https://1.1.1.1/dns-query"@);
    lemma_default_changes_one(s12, "dns_bind_addr"@, "10.44.0.1:53"@);
    lemma_default_changes_one(s13, "blocked_ips_json"@, "[]"@);
    lemma_default_changes_one(s14, "protected_ips_json"@, "[]"@);
    lemma_default_changes_one(s15, "egress_ips_json"@, "[]"@);
}

/// Raising the version changes nothing but the version, whose text is the decimal notation of the
/// next number.
pub proof fn law_version_changes_alone(
    settings: Map<Seq<char>, Seq<char>>,
    version: nat,
    other: Seq<char>,
)
    requires
        saved_as(settings, "config_version"@, decimal(version as int)),
        version < u64::MAX,
        other != "config_version"@,
    ensures
        config_version(settings) == Ok::<int, Seq<char>>(version as int),
        saved_as(with_next_version(settings), "config_version"@, decimal((version + 1) as int)),
        with_next_version(settings).contains_key(other) == settings.contains_key(other),
        settings.contains_key(other) ==> with_next_version(settings)[other] == settings[other],
{
    law_decimal_round_trip(version, u64::MAX as int);
}

/// A missing version is an error.
pub proof fn law_version_is_needed(settings: Map<Seq<char>, Seq<char>>)
    requires
        !settings.contains_key("config_version"@),
    ensures
        config_version(settings) == Err::<int, Seq<char>>("Query returned no rows"@),
{
}

/// A switch that was written is read back, as a text and as a number.
pub proof fn law_switches_round_trip(value: bool)
    ensures
        says_yes(switch_text(value)) == value,
        switch_number(value) != 0 <==> value,
        switch_number(value) == 0 || switch_number(value) == 1,
{
    reveal_strlit("true");
    reveal_strlit("false");
    reveal_strlit("1");
    reveal_strlit("yes");
    reveal_strlit("on");
    lemma_trim_id(switch_text(value));
    assert("false"@.len() == 5);
    assert("true"@.len() == 4);
    assert("1"@.len() == 1);
    assert("yes"@.len() == 3);
    assert("on"@.len() == 2);
}

/// Four words say yes, with white space around them or not, and no other text does.
pub proof fn law_words_that_say_yes(value: Seq<char>)
    ensures
        says_yes(value) == says_yes(trim_spec(value)),
        trim_spec(value) == "1"@ || trim_spec(value) == "true"@ || trim_spec(value) == "yes"@
            || trim_spec(value) == "on"@ <==> says_yes(value),
{
    crate::text::law_trimmed_text(value, CharClass::WhiteSpace);
    lemma_trim_id(trim_spec(value));
}

/// A number that is written in a text within the bounds is read, with white space around it or not;
/// a blank text holds none.
pub proof fn law_optional_numbers(value: Seq<char>, n: nat, max: int)
    requires
        0 <= n <= max,
    ensures
        trim_spec(value) == decimal(n as int) ==> optional_number(value, 0, max) == Some(n as int),
        trim_spec(value).len() == 0 ==> optional_number(value, 0, max) is None,
{
    law_decimal_round_trip(n, max);
}

/// A text stands for itself without the white space around it, and a blank one for nothing.
pub proof fn law_blank_texts_are_nothing(value: Seq<char>)
    ensures
        unless_blank(value) is None <==> trim_spec(value).len() == 0,
        unless_blank(value) matches Some(text) ==> text == trim_spec(value),
        clean_text(None) is None,
        clean_text(Some(value)) == unless_blank(value),
{
}

/// The lines of a text: each is a line of it without the white space around it and not blank, and
/// every line that is not blank is among them.
pub proof fn law_lines_of_a_text(raw: Seq<char>, i: int, j: int)
    ensures
        0 <= i < lines_of(raw).len() ==> lines_of(raw)[i].len() > 0 && exists|k: int|
            0 <= k < split_spec(raw, CharClass::LineFeed).len() && lines_of(raw)[i] == trim_spec(
                #[trigger] split_spec(raw, CharClass::LineFeed)[k],
            ),
        0 <= j < split_spec(raw, CharClass::LineFeed).len() && trim_spec(
            split_spec(raw, CharClass::LineFeed)[j],
        ).len() > 0 ==> lines_of(raw).contains(trim_spec(split_spec(raw, CharClass::LineFeed)[j])),
{
    let pieces = split_spec(raw, CharClass::LineFeed);
    let trimmed = trimmed_all(pieces);
    lemma_non_empty(trimmed);
    if 0 <= i < lines_of(raw).len() {
        assert(trimmed.contains(lines_of(raw)[i]));
        let k = choose|k: int| 0 <= k < trimmed.len() && trimmed[k] == lines_of(raw)[i];
        assert(trimmed[k] == trim_spec(pieces[k]));
    }
    if 0 <= j < pieces.len() && trim_spec(pieces[j]).len() > 0 {
        assert(trimmed[j] == trim_spec(pieces[j]));
    }
}

/// What is left of a list without its empty texts.
proof fn lemma_non_empty(list: Seq<Seq<char>>)
    ensures
        forall|i: int|
            0 <= i < non_empty(list).len() ==> (#[trigger] non_empty(list)[i]).len() > 0
                && list.contains(non_empty(list)[i]),
        forall|i: int|
            0 <= i < list.len() && list[i].len() > 0 ==> non_empty(list).contains(
                #[trigger] list[i],
            ),
    decreases list.len(),
{
    if list.len() > 0 {
        let fewer = list.drop_last();
        lemma_non_empty(fewer);
        let before = non_empty(fewer);
        let all = non_empty(list);
        assert forall|i: int| 0 <= i < all.len() implies (#[trigger] all[i]).len() > 0
            && list.contains(all[i]) by {
            if i < before.len() {
                assert(all[i] == before[i]);
                let k = choose|k: int| 0 <= k < fewer.len() && fewer[k] == before[i];
                assert(list[k] == all[i]);
            } else {
                assert(list[list.len() - 1] == all[i]);
            }
        }
        assert forall|i: int| 0 <= i < list.len() && list[i].len() > 0 implies all.contains(
            #[trigger] list[i],
        ) by {
            if i < fewer.len() {
                assert(fewer[i] == list[i]);
                let k = choose|k: int| 0 <= k < before.len() && before[k] == fewer[i];
                assert(all[k] == list[i]);
            } else {
                assert(all[all.len() - 1] == list[i]);
            }
        }
    }
}

} // verus!
