//! Graphics adapter enumeration logic.
//!
//! The platform's adapter API is an index-driven enumeration: each index
//! yields a description record, a retrieval failure for that one index, or the
//! signal that no adapter exists there, which ends the enumeration. A probe
//! trace records those outcomes in order; `scan` gives the formatted lines the
//! trace yields. An adapter is reported only if its capability flags do not
//! mark it as a software adapter and it owns dedicated video memory; its line
//! is the decoded name followed by the formatted memory size in parentheses.

use vstd::prelude::*;
use vstd::string::StringExecFns;
use crate::text::{format_size, seq_views, size_text};

verus! {

/// The capability-flags bit that marks a software (non-physical) adapter, as
/// the platform's adapter API defines it.
pub const ADAPTER_FLAG_SOFTWARE: u32 = 2;

/// An adapter description record: the name as a null-terminated wide-character
/// buffer, the capability-flags bitfield, and the dedicated video memory in
/// bytes.
pub struct AdapterDesc {
    pub name: Vec<u16>,
    pub flags: u32,
    pub dedicated_video_memory: u64,
}

/// The outcome of probing one enumeration index: a description record, a
/// retrieval failure for that index alone, or the signal that no adapter
/// exists at it.
pub enum AdapterProbe {
    Found(AdapterDesc),
    Unavailable,
    End,
}

/// An adapter is reported only when its flags do not mark it as software and
/// it has dedicated video memory.
pub open spec fn qualifies(a: AdapterDesc) -> bool {
    a.flags & ADAPTER_FLAG_SOFTWARE == 0 && a.dedicated_video_memory > 0
}

/// The wide characters of a name buffer before its first null terminator.
pub open spec fn wide_prefix(s: Seq<u16>) -> Seq<u16>
    decreases s.len(),
{
    if s.len() == 0 {
        Seq::empty()
    } else if s[0] == 0 {
        Seq::empty()
    } else {
        seq![s[0]] + wide_prefix(s.drop_first())
    }
}

/// What `String::from_utf16_lossy` decodes a code-unit sequence to; the
/// result depends on the code units alone.
pub uninterp spec fn utf16_lossy(units: Seq<u16>) -> Seq<char>;

/// Relies on String::from_utf16_lossy: decodes UTF-16 code units, substituting
/// invalid data; the result is a function of the code units alone.
#[verifier::external_body]
fn utf16_lossy_string(units: &Vec<u16>) -> (r: String)
    ensures
        r@ == utf16_lossy(units@),
{
    String::from_utf16_lossy(units)
}

/// The line reported for a qualifying adapter: decoded name, then the
/// formatted dedicated memory in parentheses.
pub open spec fn gpu_line(a: AdapterDesc) -> Seq<char> {
    utf16_lossy(wide_prefix(a.name@)) + " ("@ + size_text(a.dedicated_video_memory) + ")"@
}

/// The lines a probe trace yields: outcomes are taken in order, a qualifying
/// description adds its line, a non-qualifying one and a retrieval failure add
/// nothing, and the first end-of-enumeration signal stops everything after it
/// from being looked at.
pub open spec fn scan(probes: Seq<AdapterProbe>) -> Seq<Seq<char>>
    decreases probes.len(),
{
    if probes.len() == 0 {
        Seq::empty()
    } else {
        match probes[0] {
            AdapterProbe::End => Seq::empty(),
            AdapterProbe::Unavailable => scan(probes.drop_first()),
            AdapterProbe::Found(d) => if qualifies(d) {
                seq![gpu_line(d)] + scan(probes.drop_first())
            } else {
                scan(probes.drop_first())
            },
        }
    }
}

proof fn lemma_wide_prefix_take(s: Seq<u16>, i: int)
    requires
        0 <= i <= s.len(),
        forall|j: int| 0 <= j < i ==> s[j] != 0,
        i == s.len() || s[i] == 0,
    ensures
        wide_prefix(s) == s.take(i),
    decreases i,
{
    if i == 0 {
        assert(s.take(0) =~= Seq::<u16>::empty());
    } else {
        lemma_wide_prefix_take(s.drop_first(), i - 1);
        assert(seq![s[0]] + s.drop_first().take(i - 1) =~= s.take(i));
    }
}

/// Decodes an adapter name buffer: the wide characters before the first null
/// terminator, decoded lossily.
pub fn decode_adapter_name(buf: &Vec<u16>) -> (r: String)
    ensures
        r@ == utf16_lossy(wide_prefix(buf@)),
{
    let n = buf.len();
    let mut prefix: Vec<u16> = Vec::new();
    let mut i: usize = 0;
    while i < n && buf[i] != 0
        invariant
            n == buf@.len(),
            0 <= i <= n,
            forall|j: int| 0 <= j < i ==> buf@[j] != 0,
            prefix@ == buf@.take(i as int),
        decreases n - i,
    {
        prefix.push(buf[i]);
        proof {
            assert(prefix@ =~= buf@.take(i + 1));
        }
        i += 1;
    }
    proof {
        lemma_wide_prefix_take(buf@, i as int);
    }
    utf16_lossy_string(&prefix)
}

/// The line for one probed adapter: its formatted description when it
/// qualifies, nothing when it is software-flagged or has no dedicated memory.
pub fn describe_adapter(a: &AdapterDesc) -> (r: Option<String>)
    ensures
        qualifies(*a) ==> (r matches Some(line) && line@ == gpu_line(*a)),
        !qualifies(*a) ==> r is None,
{
    if a.flags & ADAPTER_FLAG_SOFTWARE == 0 && a.dedicated_video_memory > 0 {
        let mut line = decode_adapter_name(&a.name);
        let memory = format_size(a.dedicated_video_memory);
        line.append(" (");
        line.append(memory.as_str());
        line.append(")");
        proof {
            assert(line@ =~= gpu_line(*a));
        }
        Some(line)
    } else {
        None
    }
}

fn scan_into(probes: &Vec<AdapterProbe>, i: usize, out: &mut Vec<String>)
    requires
        i <= probes@.len(),
    ensures
        seq_views(final(out)@) == seq_views(old(out)@) + scan(probes@.skip(i as int)),
    decreases probes@.len() - i,
{
    if i == probes.len() {
        proof {
            assert(probes@.skip(i as int) =~= Seq::<AdapterProbe>::empty());
            assert(seq_views(out@) =~= seq_views(out@) + scan(probes@.skip(i as int)));
        }
        return ;
    }
    proof {
        assert(probes@.skip(i as int)[0] == probes@[i as int]);
        assert(probes@.skip(i as int).drop_first() =~= probes@.skip(i + 1));
    }
    match &probes[i] {
        AdapterProbe::End => {
            proof {
                assert(seq_views(out@) =~= seq_views(out@) + scan(probes@.skip(i as int)));
            }
        },
        AdapterProbe::Unavailable => {
            scan_into(probes, i + 1, out);
        },
        AdapterProbe::Found(d) => {
            let ghost out0 = out@;
            if let Some(line) = describe_adapter(d) {
                out.push(line);
                proof {
                    assert(seq_views(out@) =~= seq_views(out0).push(line@));
                }
            }
            scan_into(probes, i + 1, out);
            proof {
                if qualifies(*d) {
                    assert(seq_views(out@) =~= seq_views(out0) + scan(probes@.skip(i as int)));
                }
            }
        },
    }
}

/// The formatted adapter lines a probe trace yields, in enumeration order.
pub fn get_graphics_info(probes: &Vec<AdapterProbe>) -> (r: Vec<String>)
    ensures
        seq_views(r@) == scan(probes@),
{
    let mut out: Vec<String> = Vec::new();
    scan_into(probes, 0, &mut out);
    proof {
        assert(probes@.skip(0) =~= probes@);
        assert(seq_views(out@) =~= scan(probes@));
    }
    out
}

/// A software-flagged adapter is never reported, whatever dedicated memory it
/// claims: a trace that finds it yields exactly what the rest of the trace
/// yields.
pub proof fn lemma_software_adapter_excluded(d: AdapterDesc, rest: Seq<AdapterProbe>)
    requires
        d.flags & ADAPTER_FLAG_SOFTWARE != 0,
    ensures
        scan(seq![AdapterProbe::Found(d)] + rest) == scan(rest),
{
    let probes = seq![AdapterProbe::Found(d)] + rest;
    assert(probes.drop_first() =~= rest);
}

/// An adapter without dedicated video memory is never reported, whether or
/// not it is software-flagged.
pub proof fn lemma_zero_memory_adapter_excluded(d: AdapterDesc, rest: Seq<AdapterProbe>)
    requires
        d.dedicated_video_memory == 0,
    ensures
        scan(seq![AdapterProbe::Found(d)] + rest) == scan(rest),
{
    let probes = seq![AdapterProbe::Found(d)] + rest;
    assert(probes.drop_first() =~= rest);
}

/// Enumeration stops at the first end-of-enumeration signal: whatever follows
/// it in a trace changes nothing, however many adapters came before it.
pub proof fn lemma_scan_stops_at_end(before: Seq<AdapterProbe>, after: Seq<AdapterProbe>)
    ensures
        scan(before.push(AdapterProbe::End) + after) == scan(before.push(AdapterProbe::End)),
    decreases before.len(),
{
    let full = before.push(AdapterProbe::End) + after;
    let stopped = before.push(AdapterProbe::End);
    if before.len() == 0 {
        assert(full[0] is End);
        assert(stopped[0] is End);
    } else {
        lemma_scan_stops_at_end(before.drop_first(), after);
        assert(full[0] == before[0]);
        assert(stopped[0] == before[0]);
        assert(full.drop_first() =~= before.drop_first().push(AdapterProbe::End) + after);
        assert(stopped.drop_first() =~= before.drop_first().push(AdapterProbe::End));
    }
}

} // verus!
