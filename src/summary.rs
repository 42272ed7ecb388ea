use vstd::prelude::*;
use crate::timestamp::{digit, digit_text};

verus! {

/// The decimal digits of `n`, most significant first, with no leading zeros.
pub open spec fn decimal(n: nat) -> Seq<char>
    decreases n,
{
    if n < 10 {
        seq![digit(n as int)]
    } else {
        decimal(n / 10).push(digit((n % 10) as int))
    }
}

pub(crate) fn push_decimal(s: &mut String, n: u64)
    ensures
        final(s)@ == old(s)@ + decimal(n as nat),
    decreases n,
{
    if n >= 10 {
        push_decimal(s, n / 10);
    }
    s.append(digit_text((n % 10) as u32));
    assert(final(s)@ =~= old(s)@ + decimal(n as nat));
}

/// `n` in decimal.
pub fn decimal_text(n: u64) -> (r: String)
    ensures
        r@ == decimal(n as nat),
{
    let mut s = String::new();
    push_decimal(&mut s, n);
    assert(s@ =~= decimal(n as nat));
    s
}

/// The link that opens program `id` in the web viewer, pointed at the
/// registry and the neutron RPC endpoint of the active configuration.
pub open spec fn viewer_link(id: nat, registry: Seq<char>, rpc: Seq<char>) -> Seq<char> {
    "https://app.valence.zone/programs/"@ + decimal(id) + "?queryConfig={\"main\":{\"registryAddress\":\""@
        + registry + "\",\"name\":\"neutron\",\"chainId\":\"neutron-1\",\"rpcUrl\":\""@ + rpc
        + "\"},\"external\":[]}"@
}

/// The message shown after a successful deployment.
pub open spec fn success_text(id: nat, registry: Seq<char>, rpc: Seq<char>) -> Seq<char> {
    "Program deployed successfully! \nProgram id: "@ + decimal(id) + " \nView program on Valence UI: "@
        + viewer_link(id, registry, rpc)
}

pub fn viewer_url(program_id: u64, registry_addr: &str, neutron_rpc: &str) -> (r: String)
    ensures
        r@ == viewer_link(program_id as nat, registry_addr@, neutron_rpc@),
{
    let id = decimal_text(program_id);
    String::from_str("https://app.valence.zone/programs/")
        .concat(id.as_str())
        .concat("?queryConfig={\"main\":{\"registryAddress\":\"")
        .concat(registry_addr)
        .concat("\",\"name\":\"neutron\",\"chainId\":\"neutron-1\",\"rpcUrl\":\"")
        .concat(neutron_rpc)
        .concat("\"},\"external\":[]}")
}

pub fn success_message(program_id: u64, registry_addr: &str, neutron_rpc: &str) -> (r: String)
    ensures
        r@ == success_text(program_id as nat, registry_addr@, neutron_rpc@),
{
    let id = decimal_text(program_id);
    let link = viewer_url(program_id, registry_addr, neutron_rpc);
    String::from_str("Program deployed successfully! \nProgram id: ")
        .concat(id.as_str())
        .concat(" \nView program on Valence UI: ")
        .concat(link.as_str())
}

} // verus!
