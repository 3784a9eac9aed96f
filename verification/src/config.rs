//! The configuration file of an embedded Sedna instance.
use vstd::prelude::*;

use crate::error::Result;
use crate::text::{decimal, is_decimal_digit, lemma_decimal_injective, lemma_decimal_is_digits, push_decimal};

verus! {

/// The port a server listens on when none is chosen.
pub const DEFAULT_PORT: u16 = 5050;

/// The distance from the listener port to the ping port.
pub const PING_PORT_OFFSET: u16 = 101;

/// The highest listener port whose ping port still fits in a `u16`.
pub const MAX_LISTENER_PORT: u16 = 65434;

/// The lower bound of the shared-memory and semaphore identifiers of the
/// instance on `port`; derived from the port so that instances on distinct
/// ports do not collide.
pub open spec fn os_primitives_id(port: nat) -> nat {
    10000 + port * 100
}

/// The ping port of the instance listening on `port`.
pub open spec fn ping_port(port: nat) -> nat {
    port + 101
}

/// The configuration text up to the identifier bound.
pub open spec fn config_head(data_dir: Seq<char>) -> Seq<char> {
    "<?xml version=\"1.0\" standalone=\"yes\"?>\n<sednaconf>\n  <sedna_data>"@ + data_dir
        + "</sedna_data>\n  <os_primitives_id_min_bound>"@
}

/// The configuration text after the identifier bound.
pub open spec fn config_tail(port: nat) -> Seq<char> {
    "</os_primitives_id_min_bound>\n  <listen_address>localhost</listen_address>\n  <listener_port>"@
        + decimal(port) + "</listener_port>\n  <ping_port>"@ + decimal(ping_port(port))
        + "</ping_port>\n  <event_log_level>1</event_log_level>\n  <keep_alive_timeout>0</keep_alive_timeout>\n  <session_stack_depth>4000</session_stack_depth>\n</sednaconf>\n"@
}

/// The `sednaconf.xml` of an instance that keeps its data in `data_dir` and
/// listens on `port`.
pub open spec fn sedna_config(data_dir: Seq<char>, port: nat) -> Seq<char> {
    config_head(data_dir) + decimal(os_primitives_id(port)) + config_tail(port)
}

/// Renders the configuration file of an instance that keeps its data in the
/// directory `data_dir` and listens on `port`.
pub fn generate_sedna_config(data_dir: &str, port: u16) -> (r: Result<String>)
    requires
        port <= MAX_LISTENER_PORT,
    ensures
        r matches Ok(text) && text@ == sedna_config(data_dir@, port as nat),
{
    let os_primitives: u64 = 10000 + (port as u64) * 100;
    let mut config = String::from_str("<?xml version=\"1.0\" standalone=\"yes\"?>\n<sednaconf>\n  <sedna_data>");
    config.append(data_dir);
    config.append("</sedna_data>\n  <os_primitives_id_min_bound>");
    let ghost head = config@;
    push_decimal(&mut config, os_primitives);
    let ghost with_id = config@;
    config.append("</os_primitives_id_min_bound>\n  <listen_address>localhost</listen_address>\n  <listener_port>");
    push_decimal(&mut config, port as u64);
    config.append("</listener_port>\n  <ping_port>");
    push_decimal(&mut config, (port + PING_PORT_OFFSET) as u64);
    config.append("</ping_port>\n  <event_log_level>1</event_log_level>\n  <keep_alive_timeout>0</keep_alive_timeout>\n  <session_stack_depth>4000</session_stack_depth>\n</sednaconf>\n");
    proof {
        assert(head =~= config_head(data_dir@));
        assert(config@ =~= with_id + config_tail(port as nat));
    }
    Ok(config)
}

/// Instances on distinct ports get distinct identifier bounds.
pub proof fn lemma_distinct_ports_distinct_primitives(port1: nat, port2: nat)
    requires
        port1 != port2,
    ensures
        os_primitives_id(port1) != os_primitives_id(port2),
{
}

/// Instances on distinct ports, even with the same data directory, are given
/// distinct configuration files.
pub proof fn lemma_distinct_ports_distinct_configs(data_dir: Seq<char>, port1: nat, port2: nat)
    requires
        port1 != port2,
    ensures
        sedna_config(data_dir, port1) != sedna_config(data_dir, port2),
{
    let head = config_head(data_dir);
    let d1 = decimal(os_primitives_id(port1));
    let d2 = decimal(os_primitives_id(port2));
    let t1 = config_tail(port1);
    let t2 = config_tail(port2);
    reveal_strlit("</os_primitives_id_min_bound>\n  <listen_address>localhost</listen_address>\n  <listener_port>");
    assert(t1[0] == '<');
    assert(t2[0] == '<');
    lemma_decimal_is_digits(os_primitives_id(port1));
    lemma_decimal_is_digits(os_primitives_id(port2));
    if sedna_config(data_dir, port1) == sedna_config(data_dir, port2) {
        let c = sedna_config(data_dir, port1);
        let n: int = head.len() as int;
        assert(c.subrange(n, c.len() as int) =~= d1 + t1);
        assert(sedna_config(data_dir, port2).subrange(n, c.len() as int) =~= d2 + t2);
        let rest1 = d1 + t1;
        let rest2 = d2 + t2;
        assert(rest1 == rest2);
        if d1.len() == d2.len() {
            assert(d1 =~= rest1.subrange(0, d1.len() as int));
            assert(d2 =~= rest2.subrange(0, d2.len() as int));
            lemma_decimal_injective(os_primitives_id(port1), os_primitives_id(port2));
        } else if d1.len() < d2.len() {
            assert(rest1[d1.len() as int] == t1[0]);
            assert(rest2[d1.len() as int] == d2[d1.len() as int]);
            assert(is_decimal_digit(d2[d1.len() as int]));
        } else {
            assert(rest2[d2.len() as int] == t2[0]);
            assert(rest1[d2.len() as int] == d1[d2.len() as int]);
            assert(is_decimal_digit(d1[d2.len() as int]));
        }
    }
}

/// Whether `part` occurs in `text`.
pub open spec fn occurs_in(part: Seq<char>, text: Seq<char>) -> bool {
    exists|i: int| 0 <= i && i + part.len() <= text.len() && #[trigger] text.subrange(i, i + part.len()) == part
}

/// The configuration names the instance's own port as its listener port,
/// the port 101 above it as its ping port, and the data directory it was
/// given.
pub proof fn lemma_config_names_ports(data_dir: Seq<char>, port: nat)
    ensures
        occurs_in("<listener_port>"@ + decimal(port) + "</listener_port>"@, sedna_config(data_dir, port)),
        occurs_in("<ping_port>"@ + decimal(port + 101) + "</ping_port>"@, sedna_config(data_dir, port)),
        occurs_in("<sedna_data>"@ + data_dir + "</sedna_data>"@, sedna_config(data_dir, port)),
{
    let c = sedna_config(data_dir, port);
    let a = "<?xml version=\"1.0\" standalone=\"yes\"?>\n<sednaconf>\n  <sedna_data>"@;
    let b = "</sedna_data>\n  <os_primitives_id_min_bound>"@;
    let t1 = "</os_primitives_id_min_bound>\n  <listen_address>localhost</listen_address>\n  <listener_port>"@;
    let t2 = "</listener_port>\n  <ping_port>"@;
    let t3 = "</ping_port>\n  <event_log_level>1</event_log_level>\n  <keep_alive_timeout>0</keep_alive_timeout>\n  <session_stack_depth>4000</session_stack_depth>\n</sednaconf>\n"@;
    reveal_strlit("<?xml version=\"1.0\" standalone=\"yes\"?>\n<sednaconf>\n  <sedna_data>");
    reveal_strlit("</sedna_data>\n  <os_primitives_id_min_bound>");
    reveal_strlit("</os_primitives_id_min_bound>\n  <listen_address>localhost</listen_address>\n  <listener_port>");
    reveal_strlit("</listener_port>\n  <ping_port>");
    reveal_strlit("</ping_port>\n  <event_log_level>1</event_log_level>\n  <keep_alive_timeout>0</keep_alive_timeout>\n  <session_stack_depth>4000</session_stack_depth>\n</sednaconf>\n");
    reveal_strlit("<listener_port>");
    reveal_strlit("</listener_port>");
    reveal_strlit("<ping_port>");
    reveal_strlit("</ping_port>");
    reveal_strlit("<sedna_data>");
    reveal_strlit("</sedna_data>");
    let d = decimal(os_primitives_id(port));
    let p1 = decimal(port);
    let p2 = decimal(ping_port(port));
    assert(c =~= a + data_dir + b + d + t1 + p1 + t2 + p2 + t3);

    let part1 = "<listener_port>"@ + p1 + "</listener_port>"@;
    let i1: int = a.len() + data_dir.len() + b.len() + d.len() + t1.len() - 15;
    assert(c.subrange(i1, i1 + part1.len()) =~= part1);

    let part2 = "<ping_port>"@ + p2 + "</ping_port>"@;
    let i2: int = a.len() + data_dir.len() + b.len() + d.len() + t1.len() + p1.len() + t2.len() - 11;
    assert(c.subrange(i2, i2 + part2.len()) =~= part2);

    let part3 = "<sedna_data>"@ + data_dir + "</sedna_data>"@;
    let i3: int = a.len() - 12;
    assert(c.subrange(i3, i3 + part3.len()) =~= part3);
}

} // verus!
