//! Snapshot types reported by status queries, and their textual rendering.

use vstd::prelude::*;
use crate::text::{decimal, push_decimal};

verus! {

/// Counters of one queueing discipline, copied from a single kernel snapshot.
#[derive(Debug, Clone, Copy, PartialEq, Eq, Structural)]
pub struct QdiscStats {
    pub bytes: u64,
    pub packets: u64,
    pub drops: u64,
    pub overlimits: u64,
    pub qlen: u32,
    pub backlog: u32,
}

/// One queueing discipline attached to an interface.
#[derive(Debug)]
pub struct QdiscInfo {
    pub kind: String,
    pub handle: String,
    pub parent: String,
    pub options: Vec<String>,
    pub stats: QdiscStats,
}

/// Read-only snapshot of an interface's tap-relevant state.
#[derive(Debug)]
pub struct InterfaceStatus {
    pub name: String,
    pub ipv6_enabled: bool,
    pub promiscuous_mode: bool,
    pub qdisc: Vec<QdiscInfo>,
}

pub open spec fn enabled_word(b: bool) -> Seq<char> {
    if b {
        "Enabled"@
    } else {
        "Disabled"@
    }
}

/// One indented line per option, in order.
pub open spec fn options_text(opts: Seq<String>) -> Seq<char>
    decreases opts.len(),
{
    if opts.len() == 0 {
        Seq::empty()
    } else {
        options_text(opts.drop_last()) + "    "@ + opts.last()@ + "\n"@
    }
}

pub open spec fn stats_text(st: QdiscStats) -> Seq<char> {
    "  Stats:\n"@
        + "    Bytes: "@ + decimal(st.bytes as nat) + ", Packets: "@ + decimal(st.packets as nat) + "\n"@
        + "    Drops: "@ + decimal(st.drops as nat) + ", Overlimits: "@ + decimal(st.overlimits as nat) + "\n"@
        + "    Queue length: "@ + decimal(st.qlen as nat) + ", Backlog: "@ + decimal(st.backlog as nat) + "\n"@
}

/// The block of text that describes one queueing discipline.
pub open spec fn qdisc_text(q: QdiscInfo) -> Seq<char> {
    "Qdisc "@ + q.kind@ + ", Handle "@ + q.handle@ + ", Parent "@ + q.parent@ + "\n"@
        + (if q.options@.len() == 0 {
            Seq::empty()
        } else {
            "  Options:\n"@ + options_text(q.options@)
        })
        + stats_text(q.stats)
}

pub open spec fn qdiscs_text(qs: Seq<QdiscInfo>) -> Seq<char>
    decreases qs.len(),
{
    if qs.len() == 0 {
        Seq::empty()
    } else {
        qdiscs_text(qs.drop_last()) + qdisc_text(qs.last())
    }
}

/// The report printed for one interface.
pub open spec fn status_text(s: InterfaceStatus) -> Seq<char> {
    "Status of interface: "@ + s.name@ + "\n"@
        + "  IPv6:              "@ + enabled_word(s.ipv6_enabled) + "\n"@
        + "  Promiscuous mode:  "@ + enabled_word(s.promiscuous_mode) + "\n"@
        + "  Qdisc:\n"@
        + (if s.qdisc@.len() == 0 {
            "    None\n"@
        } else {
            qdiscs_text(s.qdisc@)
        })
}

fn push_enabled_word(out: &mut String, b: bool)
    ensures
        final(out)@ == old(out)@ + enabled_word(b),
{
    if b {
        out.append("Enabled");
    } else {
        out.append("Disabled");
    }
}

fn push_options(out: &mut String, opts: &Vec<String>)
    ensures
        final(out)@ == old(out)@ + options_text(opts@),
{
    let ghost start = out@;
    let mut i: usize = 0;
    while i < opts.len()
        invariant
            i <= opts@.len(),
            out@ == start + options_text(opts@.subrange(0, i as int)),
        decreases opts@.len() - i,
    {
        out.append("    ");
        out.append(opts[i].as_str());
        out.append("\n");
        proof {
            let next = opts@.subrange(0, i + 1);
            assert(next.drop_last() =~= opts@.subrange(0, i as int));
            assert(next.last() == opts@[i as int]);
            assert(out@ =~= start + options_text(next));
        }
        i = i + 1;
    }
    assert(opts@.subrange(0, opts@.len() as int) =~= opts@);
}

fn push_stats(out: &mut String, st: &QdiscStats)
    ensures
        final(out)@ == old(out)@ + stats_text(*st),
{
    let ghost start = out@;
    out.append("  Stats:\n");
    out.append("    Bytes: ");
    push_decimal(out, st.bytes);
    out.append(", Packets: ");
    push_decimal(out, st.packets);
    out.append("\n");
    out.append("    Drops: ");
    push_decimal(out, st.drops);
    out.append(", Overlimits: ");
    push_decimal(out, st.overlimits);
    out.append("\n");
    out.append("    Queue length: ");
    push_decimal(out, st.qlen as u64);
    out.append(", Backlog: ");
    push_decimal(out, st.backlog as u64);
    out.append("\n");
    assert(out@ =~= start + stats_text(*st));
}

impl QdiscInfo {
    /// Appends this entry's report block to `out`.
    pub fn write_to(&self, out: &mut String)
        ensures
            final(out)@ == old(out)@ + qdisc_text(*self),
    {
        let ghost start = out@;
        out.append("Qdisc ");
        out.append(self.kind.as_str());
        out.append(", Handle ");
        out.append(self.handle.as_str());
        out.append(", Parent ");
        out.append(self.parent.as_str());
        out.append("\n");
        if self.options.len() > 0 {
            out.append("  Options:\n");
            push_options(out, &self.options);
        }
        push_stats(out, &self.stats);
        assert(out@ =~= start + qdisc_text(*self));
    }

    /// The report block of this entry.
    pub fn render(&self) -> (r: String)
        ensures
            r@ == qdisc_text(*self),
    {
        let mut out = String::new();
        self.write_to(&mut out);
        assert(out@ =~= qdisc_text(*self));
        out
    }
}

impl InterfaceStatus {
    /// The report of this interface: name, IPv6 and promiscuous state, then
    /// each queueing discipline, or "None".
    pub fn render(&self) -> (r: String)
        ensures
            r@ == status_text(*self),
    {
        let mut out = String::new();
        out.append("Status of interface: ");
        out.append(self.name.as_str());
        out.append("\n");
        out.append("  IPv6:              ");
        push_enabled_word(&mut out, self.ipv6_enabled);
        out.append("\n");
        out.append("  Promiscuous mode:  ");
        push_enabled_word(&mut out, self.promiscuous_mode);
        out.append("\n");
        out.append("  Qdisc:\n");
        let ghost head = out@;
        if self.qdisc.len() == 0 {
            out.append("    None\n");
        } else {
            let mut i: usize = 0;
            while i < self.qdisc.len()
                invariant
                    i <= self.qdisc@.len(),
                    out@ == head + qdiscs_text(self.qdisc@.subrange(0, i as int)),
                decreases self.qdisc@.len() - i,
            {
                self.qdisc[i].write_to(&mut out);
                proof {
                    let next = self.qdisc@.subrange(0, i + 1);
                    assert(next.drop_last() =~= self.qdisc@.subrange(0, i as int));
                    assert(next.last() == self.qdisc@[i as int]);
                }
                i = i + 1;
            }
            assert(self.qdisc@.subrange(0, self.qdisc@.len() as int) =~= self.qdisc@);
        }
        assert(out@ =~= status_text(*self));
        out
    }
}

} // verus!
