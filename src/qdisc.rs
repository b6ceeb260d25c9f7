//! Kernel link and queueing-discipline listings, as plain values, and what a
//! status query extracts from them.

use vstd::prelude::*;
use crate::text::{hexadecimal, push_hexadecimal};
use crate::types::{QdiscInfo, QdiscStats};

verus! {

/// Counters as the kernel reports them, before widening.
#[derive(Debug, Clone, Copy, PartialEq, Eq, Structural)]
pub struct RawQdiscStats {
    pub bytes: u64,
    pub packets: u32,
    pub drops: u32,
    pub overlimits: u32,
    pub qlen: u32,
    pub backlog: u32,
}

/// One attribute of a queueing-discipline message.
#[derive(Debug)]
pub enum QdiscAttribute {
    Kind(String),
    /// Each option in its textual form.
    Options(Vec<String>),
    Stats(RawQdiscStats),
    /// An attribute the status report does not use.
    Other,
}

/// A queueing-discipline message: the interface it is attached to, the major
/// numbers of its handle and parent, and its attributes in order.
#[derive(Debug)]
pub struct QdiscMessage {
    pub index: u32,
    pub handle_major: u16,
    pub parent_major: u16,
    pub attributes: Vec<QdiscAttribute>,
}

/// A link of the kernel's link listing: its index and whether it is promiscuous.
#[derive(Debug, Clone, Copy, PartialEq, Eq, Structural)]
pub struct LinkEntry {
    pub index: u32,
    pub promiscuous: bool,
}

/// The kind named by the last `Kind` attribute, or empty.
pub open spec fn kind_of(attrs: Seq<QdiscAttribute>) -> Seq<char>
    decreases attrs.len(),
{
    if attrs.len() == 0 {
        Seq::empty()
    } else if attrs.last() is Kind {
        attrs.last()->Kind_0@
    } else {
        kind_of(attrs.drop_last())
    }
}

/// The options of all `Options` attributes, in order.
pub open spec fn options_of(attrs: Seq<QdiscAttribute>) -> Seq<String>
    decreases attrs.len(),
{
    if attrs.len() == 0 {
        Seq::empty()
    } else if attrs.last() is Options {
        options_of(attrs.drop_last()) + attrs.last()->Options_0@
    } else {
        options_of(attrs.drop_last())
    }
}

pub open spec fn zero_stats() -> QdiscStats {
    QdiscStats { bytes: 0, packets: 0, drops: 0, overlimits: 0, qlen: 0, backlog: 0 }
}

pub open spec fn widen(s: RawQdiscStats) -> QdiscStats {
    QdiscStats {
        bytes: s.bytes,
        packets: s.packets as u64,
        drops: s.drops as u64,
        overlimits: s.overlimits as u64,
        qlen: s.qlen,
        backlog: s.backlog,
    }
}

/// The counters of the last `Stats` attribute, widened, or all zero.
pub open spec fn stats_of(attrs: Seq<QdiscAttribute>) -> QdiscStats
    decreases attrs.len(),
{
    if attrs.len() == 0 {
        zero_stats()
    } else if attrs.last() is Stats {
        widen(attrs.last()->Stats_0)
    } else {
        stats_of(attrs.drop_last())
    }
}

/// A major number as the report writes it: hexadecimal, then a colon.
pub open spec fn major_text(major: u16) -> Seq<char> {
    hexadecimal(major as nat) + ":"@
}

/// `info` is what the report makes of `m`.
pub open spec fn describes(info: QdiscInfo, m: QdiscMessage) -> bool {
    &&& info.kind@ == kind_of(m.attributes@)
    &&& info.handle@ == major_text(m.handle_major)
    &&& info.parent@ == major_text(m.parent_major)
    &&& info.options@ == options_of(m.attributes@)
    &&& info.stats == stats_of(m.attributes@)
}

fn major_string(major: u16) -> (r: String)
    ensures
        r@ == major_text(major),
{
    let mut s = String::new();
    push_hexadecimal(&mut s, major as u64);
    s.append(":");
    assert(s@ =~= major_text(major));
    s
}

/// Turns one queueing-discipline message into a report entry.
pub fn parse_qdisc_message(qdisc: &QdiscMessage) -> (info: QdiscInfo)
    ensures
        describes(info, *qdisc),
{
    let attrs = &qdisc.attributes;
    let mut kind = String::new();
    let mut options: Vec<String> = Vec::new();
    let mut stats = QdiscStats { bytes: 0, packets: 0, drops: 0, overlimits: 0, qlen: 0, backlog: 0 };
    let mut i: usize = 0;
    while i < attrs.len()
        invariant
            i <= attrs@.len(),
            kind@ == kind_of(attrs@.subrange(0, i as int)),
            options@ == options_of(attrs@.subrange(0, i as int)),
            stats == stats_of(attrs@.subrange(0, i as int)),
        decreases attrs@.len() - i,
    {
        let ghost prefix = attrs@.subrange(0, i + 1);
        assert(prefix.drop_last() =~= attrs@.subrange(0, i as int));
        match &attrs[i] {
            QdiscAttribute::Kind(k) => {
                kind = k.clone();
            },
            QdiscAttribute::Options(opts) => {
                let ghost before = options@;
                let mut j: usize = 0;
                while j < opts.len()
                    invariant
                        j <= opts@.len(),
                        options@ == before + opts@.subrange(0, j as int),
                    decreases opts@.len() - j,
                {
                    options.push(opts[j].clone());
                    assert(options@ =~= before + opts@.subrange(0, j + 1));
                    j = j + 1;
                }
                assert(opts@.subrange(0, opts@.len() as int) =~= opts@);
            },
            QdiscAttribute::Stats(s) => {
                stats = QdiscStats {
                    bytes: s.bytes,
                    packets: s.packets as u64,
                    drops: s.drops as u64,
                    overlimits: s.overlimits as u64,
                    qlen: s.qlen,
                    backlog: s.backlog,
                };
            },
            QdiscAttribute::Other => {},
        }
        i = i + 1;
    }
    assert(attrs@.subrange(0, attrs@.len() as int) =~= attrs@);
    QdiscInfo {
        kind,
        handle: major_string(qdisc.handle_major),
        parent: major_string(qdisc.parent_major),
        options,
        stats,
    }
}

/// The messages of `msgs` attached to interface `index`, in order.
pub open spec fn attached_to(msgs: Seq<QdiscMessage>, index: u32) -> Seq<QdiscMessage>
    decreases msgs.len(),
{
    if msgs.len() == 0 {
        Seq::empty()
    } else if msgs.last().index == index {
        attached_to(msgs.drop_last(), index).push(msgs.last())
    } else {
        attached_to(msgs.drop_last(), index)
    }
}

/// The report entries of the queueing disciplines on interface `index`, one
/// per message attached to it, in listing order.
pub fn get_qdisc_status(index: u32, qdiscs: &Vec<QdiscMessage>) -> (r: Vec<QdiscInfo>)
    ensures
        r@.len() == attached_to(qdiscs@, index).len(),
        forall|k: int| 0 <= k < r@.len() ==> describes(#[trigger] r@[k], attached_to(qdiscs@, index)[k]),
{
    let mut status: Vec<QdiscInfo> = Vec::new();
    let mut i: usize = 0;
    while i < qdiscs.len()
        invariant
            i <= qdiscs@.len(),
            status@.len() == attached_to(qdiscs@.subrange(0, i as int), index).len(),
            forall|k: int| 0 <= k < status@.len()
                ==> describes(#[trigger] status@[k], attached_to(qdiscs@.subrange(0, i as int), index)[k]),
        decreases qdiscs@.len() - i,
    {
        let ghost next = qdiscs@.subrange(0, i + 1);
        assert(next.drop_last() =~= qdiscs@.subrange(0, i as int));
        if qdiscs[i].index == index {
            let info = parse_qdisc_message(&qdiscs[i]);
            status.push(info);
        }
        i = i + 1;
    }
    assert(qdiscs@.subrange(0, qdiscs@.len() as int) =~= qdiscs@);
    status
}

/// Whether the first link of `links` with index `index` is promiscuous, or
/// `None` where no link has that index.
pub open spec fn promiscuous_in(links: Seq<LinkEntry>, index: u32) -> Option<bool>
    decreases links.len(),
{
    if links.len() == 0 {
        None
    } else if links[0].index == index {
        Some(links[0].promiscuous)
    } else {
        promiscuous_in(links.drop_first(), index)
    }
}

/// Scans the link listing for the link `index` and reads its promiscuous flag.
pub fn find_promiscuous(links: &Vec<LinkEntry>, index: u32) -> (r: Option<bool>)
    ensures
        r == promiscuous_in(links@, index),
{
    let mut i: usize = 0;
    assert(links@.subrange(0, links@.len() as int) =~= links@);
    while i < links.len()
        invariant
            i <= links@.len(),
            promiscuous_in(links@, index) == promiscuous_in(links@.subrange(i as int, links@.len() as int), index),
        decreases links@.len() - i,
    {
        let ghost tail = links@.subrange(i as int, links@.len() as int);
        assert(tail.drop_first() =~= links@.subrange(i + 1, links@.len() as int));
        if links[i].index == index {
            return Some(links[i].promiscuous);
        }
        i = i + 1;
    }
    None
}

} // verus!
