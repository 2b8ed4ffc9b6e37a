use vstd::prelude::*;

use crate::text::push_text;

verus! {

/// Size of the kernel's interface name buffer, terminating zero included.
pub const IFNAMSIZ: usize = 16;

/// Request flags of a tap device without packet information: IFF_TAP | IFF_NO_PI.
pub const TAP_FLAGS: i16 = 0x0002 | 0x1000;

/// Device-control opcode that creates (or attaches to) a tun/tap interface.
pub const TUNSETIFF: u64 = 1074025674;

/// Device-control opcode that marks a tun/tap interface persistent.
pub const TUNSETPERSIST: u64 = 1074025675;

/// Egress interface that NAT is installed on.
pub const EGRESS_INTERFACE: &'static str = "eth0";

/// The interface name buffer of a device-control request: the first bytes of the name (at
/// most IFNAMSIZ - 1 of them), then zeros.
pub open spec fn ifreq_name_of(name: Seq<u8>) -> Seq<u8> {
    Seq::new(
        IFNAMSIZ as nat,
        |i: int|
            if i < name.len() && i < IFNAMSIZ - 1 {
                name[i]
            } else {
                0u8
            },
    )
}

/// The fixed-size, zero-terminated name buffer for a tap request.
pub fn ifreq_name(name: &[u8]) -> (r: Vec<u8>)
    ensures
        r@ == ifreq_name_of(name@),
{
    let mut out: Vec<u8> = Vec::new();
    let mut i: usize = 0;
    while i < IFNAMSIZ
        invariant
            i <= IFNAMSIZ,
            out@.len() == i,
            forall|k: int| 0 <= k < i ==> out@[k] == #[trigger] ifreq_name_of(name@)[k],
        decreases IFNAMSIZ - i,
    {
        if i < name.len() && i < IFNAMSIZ - 1 {
            out.push(name[i]);
        } else {
            out.push(0u8);
        }
        i = i + 1;
    }
    assert(out@ =~= ifreq_name_of(name@));
    out
}

/// How many entries of `s` equal `x`.
pub open spec fn count_of(s: Seq<Seq<char>>, x: Seq<char>) -> nat
    decreases s.len(),
{
    if s.len() == 0 {
        0
    } else {
        count_of(s.drop_last(), x) + if s.last() == x {
            1nat
        } else {
            0nat
        }
    }
}

/// `s` without its first entry equal to `x`, if any.
pub open spec fn remove_first(s: Seq<Seq<char>>, x: Seq<char>) -> Seq<Seq<char>>
    decreases s.len(),
{
    if s.len() == 0 {
        s
    } else if count_of(s.drop_last(), x) > 0 {
        remove_first(s.drop_last(), x).push(s.last())
    } else if s.last() == x {
        s.drop_last()
    } else {
        s
    }
}

/// `s` without any entry equal to `x`.
pub open spec fn remove_all(s: Seq<Seq<char>>, x: Seq<char>) -> Seq<Seq<char>>
    decreases s.len(),
{
    if s.len() == 0 {
        s
    } else if s.last() == x {
        remove_all(s.drop_last(), x)
    } else {
        remove_all(s.drop_last(), x).push(s.last())
    }
}

proof fn lemma_count_push(s: Seq<Seq<char>>, y: Seq<char>, x: Seq<char>)
    ensures
        count_of(s.push(y), x) == count_of(s, x) + if y == x {
            1nat
        } else {
            0nat
        },
{
    assert(s.push(y).drop_last() =~= s);
}

proof fn lemma_count_remove_first(s: Seq<Seq<char>>, x: Seq<char>)
    ensures
        count_of(s, x) > 0 ==> count_of(remove_first(s, x), x) == count_of(s, x) - 1,
        count_of(s, x) == 0 ==> remove_first(s, x) == s,
    decreases s.len(),
{
    if s.len() > 0 {
        let p = s.drop_last();
        lemma_count_remove_first(p, x);
        assert(p.push(s.last()) =~= s);
        if count_of(p, x) > 0 {
            lemma_count_push(remove_first(p, x), s.last(), x);
        }
    }
}

proof fn lemma_count_remove_all(s: Seq<Seq<char>>, x: Seq<char>)
    ensures
        count_of(remove_all(s, x), x) == 0,
    decreases s.len(),
{
    if s.len() > 0 {
        lemma_count_remove_all(s.drop_last(), x);
        if s.last() != x {
            lemma_count_push(remove_all(s.drop_last(), x), s.last(), x);
        }
    }
}

/// A change to the NAT rule chain.
pub enum RuleOp {
    /// Remove the first rule equal to this one, if any; its absence is no failure.
    Delete { rule: String },
    /// Add this rule at the end of the chain.
    Append { rule: String },
}

/// The mathematical value of a rule change.
pub enum RuleOpView {
    Delete(Seq<char>),
    Append(Seq<char>),
}

impl View for RuleOp {
    type V = RuleOpView;

    open spec fn view(&self) -> RuleOpView {
        match self {
            RuleOp::Delete { rule } => RuleOpView::Delete(rule@),
            RuleOp::Append { rule } => RuleOpView::Append(rule@),
        }
    }
}

/// The chain after one rule change.
pub open spec fn apply_rule_op(chain: Seq<Seq<char>>, op: RuleOpView) -> Seq<Seq<char>> {
    match op {
        RuleOpView::Delete(r) => remove_first(chain, r),
        RuleOpView::Append(r) => chain.push(r),
    }
}

/// The chain after a list of rule changes, in order.
pub open spec fn apply_rule_ops(chain: Seq<Seq<char>>, ops: Seq<RuleOpView>) -> Seq<Seq<char>>
    decreases ops.len(),
{
    if ops.len() == 0 {
        chain
    } else {
        apply_rule_op(apply_rule_ops(chain, ops.drop_last()), ops.last())
    }
}

/// The masquerade rule for traffic leaving through `iface`.
pub open spec fn masquerade_rule_of(iface: Seq<char>) -> Seq<char> {
    "-o "@ + iface + " -j MASQUERADE"@
}

/// The rule changes that install NAT on `iface`: delete the rule, then append it.
pub open spec fn nat_ops_of(iface: Seq<char>) -> Seq<RuleOpView> {
    seq![
        RuleOpView::Delete(masquerade_rule_of(iface)),
        RuleOpView::Append(masquerade_rule_of(iface)),
    ]
}

/// The masquerade rule for traffic leaving through `iface`.
pub fn masquerade_rule(iface: &str) -> (r: String)
    ensures
        r@ == masquerade_rule_of(iface@),
{
    let mut s = String::new();
    push_text(&mut s, "-o ");
    push_text(&mut s, iface);
    push_text(&mut s, " -j MASQUERADE");
    assert(s@ =~= masquerade_rule_of(iface@));
    s
}

/// The rule changes that install NAT on `iface`, in order.
pub fn nat_install_ops(iface: &str) -> (r: Vec<RuleOp>)
    ensures
        r@.map_values(|o: RuleOp| o@) == nat_ops_of(iface@),
{
    let mut out: Vec<RuleOp> = Vec::new();
    out.push(RuleOp::Delete { rule: masquerade_rule(iface) });
    out.push(RuleOp::Append { rule: masquerade_rule(iface) });
    assert(out@.map_values(|o: RuleOp| o@) =~= nat_ops_of(iface@));
    out
}

proof fn lemma_nat_once(chain: Seq<Seq<char>>, iface: Seq<char>)
    ensures
        count_of(apply_rule_ops(chain, nat_ops_of(iface)), masquerade_rule_of(iface)) == if count_of(
            chain,
            masquerade_rule_of(iface),
        ) == 0 {
            1
        } else {
            count_of(chain, masquerade_rule_of(iface))
        },
{
    let ops = nat_ops_of(iface);
    let r = masquerade_rule_of(iface);
    let one = ops.drop_last();
    assert(one.drop_last() =~= Seq::<RuleOpView>::empty());
    assert(one.last() == RuleOpView::Delete(r));
    assert(apply_rule_ops(chain, one.drop_last()) == chain);
    assert(apply_rule_ops(chain, one) == remove_first(chain, r));
    assert(ops.last() == RuleOpView::Append(r));
    lemma_count_remove_first(chain, r);
    lemma_count_push(remove_first(chain, r), r, r);
}

/// Installing NAT twice on a chain with at most one masquerade rule for `iface` leaves
/// exactly one such rule.
pub proof fn lemma_nat_install_idempotent(chain: Seq<Seq<char>>, iface: Seq<char>)
    requires
        count_of(chain, masquerade_rule_of(iface)) <= 1,
    ensures
        count_of(
            apply_rule_ops(apply_rule_ops(chain, nat_ops_of(iface)), nat_ops_of(iface)),
            masquerade_rule_of(iface),
        ) == 1,
{
    lemma_nat_once(chain, iface);
    lemma_nat_once(apply_rule_ops(chain, nat_ops_of(iface)), iface);
}

/// A step of (re)creating a tap interface.
#[derive(PartialEq, Eq, Structural, Clone, Copy, Debug)]
pub enum TapStep {
    /// Delete the existing interface of that name.
    DeleteExisting,
    /// Create the tap interface (TUNSETIFF).
    Create,
    /// Mark it persistent (TUNSETPERSIST).
    MakePersistent,
}

/// The interfaces present after one step on `name`.
pub open spec fn apply_tap_step(ifaces: Seq<Seq<char>>, name: Seq<char>, step: TapStep) -> Seq<
    Seq<char>,
> {
    match step {
        TapStep::DeleteExisting => remove_all(ifaces, name),
        TapStep::Create => if count_of(ifaces, name) == 0 {
            ifaces.push(name)
        } else {
            ifaces
        },
        TapStep::MakePersistent => ifaces,
    }
}

/// The interfaces present after the steps, in order.
pub open spec fn apply_tap_steps(ifaces: Seq<Seq<char>>, name: Seq<char>, steps: Seq<TapStep>) -> Seq<
    Seq<char>,
>
    decreases steps.len(),
{
    if steps.len() == 0 {
        ifaces
    } else {
        apply_tap_step(apply_tap_steps(ifaces, name, steps.drop_last()), name, steps.last())
    }
}

/// The steps that give a clean tap interface: delete the old one when it exists, create the
/// new one, make it persistent.
pub open spec fn tap_steps_of(exists: bool) -> Seq<TapStep> {
    if exists {
        seq![TapStep::DeleteExisting, TapStep::Create, TapStep::MakePersistent]
    } else {
        seq![TapStep::Create, TapStep::MakePersistent]
    }
}

/// The steps that (re)create a tap interface, given whether one of that name exists.
pub fn tap_reset_steps(exists: bool) -> (r: Vec<TapStep>)
    ensures
        r@ == tap_steps_of(exists),
{
    let mut out: Vec<TapStep> = Vec::new();
    if exists {
        out.push(TapStep::DeleteExisting);
    }
    out.push(TapStep::Create);
    out.push(TapStep::MakePersistent);
    assert(out@ =~= tap_steps_of(exists));
    out
}

/// The interfaces after creating `name`, deciding on deletion from what is present.
pub open spec fn create_interface(ifaces: Seq<Seq<char>>, name: Seq<char>) -> Seq<Seq<char>> {
    apply_tap_steps(ifaces, name, tap_steps_of(count_of(ifaces, name) > 0))
}

proof fn lemma_create_once(ifaces: Seq<Seq<char>>, name: Seq<char>)
    ensures
        count_of(create_interface(ifaces, name), name) == 1,
{
    let steps = tap_steps_of(count_of(ifaces, name) > 0);
    let empty = Seq::<TapStep>::empty();
    if count_of(ifaces, name) > 0 {
        let two = steps.drop_last();
        let one = two.drop_last();
        assert(one.drop_last() =~= empty);
        assert(one.last() == TapStep::DeleteExisting);
        assert(two.last() == TapStep::Create);
        assert(apply_tap_steps(ifaces, name, one.drop_last()) == ifaces);
        let cleared = remove_all(ifaces, name);
        lemma_count_remove_all(ifaces, name);
        assert(apply_tap_steps(ifaces, name, one) == cleared);
        lemma_count_push(cleared, name, name);
        assert(apply_tap_steps(ifaces, name, steps.drop_last()) == cleared.push(name));
    } else {
        let one = steps.drop_last();
        assert(one.drop_last() =~= empty);
        assert(one.last() == TapStep::Create);
        assert(apply_tap_steps(ifaces, name, one.drop_last()) == ifaces);
        lemma_count_push(ifaces, name, name);
        assert(apply_tap_steps(ifaces, name, steps.drop_last()) == ifaces.push(name));
    }
}

/// Creating an interface twice in a row leaves exactly one interface of that name.
pub proof fn lemma_create_interface_idempotent(ifaces: Seq<Seq<char>>, name: Seq<char>)
    ensures
        count_of(create_interface(create_interface(ifaces, name), name), name) == 1,
{
    lemma_create_once(ifaces, name);
    lemma_create_once(create_interface(ifaces, name), name);
}

} // verus!
