use vstd::prelude::*;
use crate::config::PacketDuration;

verus! {

/// One block of captured frames of one stream.
#[derive(Clone, Debug)]
pub struct AudioPacket<T> {
    /// Position of the packet in its stream; consecutive packets differ by one.
    pub sequence_number: u64,
    /// Time since the start of the session, in microseconds.
    pub timestamp_micros: u64,
    pub data: Vec<T>,
}

impl<T> AudioPacket<T> {
    pub fn new(sequence_number: u64, timestamp_micros: u64, data: Vec<T>) -> (r: AudioPacket<T>)
        ensures
            r.sequence_number == sequence_number,
            r.timestamp_micros == timestamp_micros,
            r.data@ == data@,
    {
        AudioPacket { sequence_number, timestamp_micros, data }
    }
}

/// Packet `a` comes before packet `b` of `packets`: by sequence number, and by
/// position in the queue among equal sequence numbers.
pub open spec fn comes_before<T>(packets: Seq<AudioPacket<T>>, a: usize, b: usize) -> bool {
    packets[a as int].sequence_number < packets[b as int].sequence_number || (
    packets[a as int].sequence_number == packets[b as int].sequence_number && a < b)
}

/// `order` lists every position of `packets` once, sorted by sequence number,
/// keeping queue order among equal sequence numbers.
pub open spec fn is_sequence_order<T>(packets: Seq<AudioPacket<T>>, order: Seq<usize>) -> bool {
    &&& order.len() == packets.len()
    &&& packets.len() <= usize::MAX
    &&& forall|k: int| 0 <= k < order.len() ==> order[k] < packets.len()
    &&& forall|j: int| 0 <= j < packets.len() ==> #[trigger] order.contains(j as usize)
    &&& forall|k1: int, k2: int|
        0 <= k1 < k2 < order.len() ==> comes_before(packets, #[trigger] order[k1], #[trigger] order[k2])
}

/// The packets taken in the positions that `order` lists.
pub open spec fn arrange<T>(packets: Seq<AudioPacket<T>>, order: Seq<usize>) -> Seq<AudioPacket<T>> {
    Seq::new(order.len(), |k: int| packets[order[k] as int])
}

/// The number of packets missing between sequence numbers `prev` and `cur`.
pub open spec fn missing_between(prev: u64, cur: u64) -> nat {
    if cur > prev + 1 {
        (cur - prev - 1) as nat
    } else {
        0
    }
}

/// `n` samples of silence.
pub open spec fn silence<T>(n: nat, zero: T) -> Seq<T> {
    Seq::new(n, |_i: int| zero)
}

/// The samples of a segment written from packets already in sequence order:
/// each packet's samples, preceded by `per_packet` silent samples for every
/// sequence number missing before it.
pub open spec fn rendered<T>(s: Seq<AudioPacket<T>>, per_packet: nat, zero: T) -> Seq<T>
    decreases s.len(),
{
    if s.len() == 0 {
        Seq::empty()
    } else {
        let prefix = s.drop_last();
        let gap = if prefix.len() == 0 {
            0
        } else {
            missing_between(prefix.last().sequence_number, s.last().sequence_number)
        };
        rendered(prefix, per_packet, zero) + silence(gap * per_packet, zero) + s.last().data@
    }
}

/// Lists the positions of `packets` sorted by sequence number; packets with
/// equal sequence numbers keep their queue order.
pub fn sequence_order<T>(packets: &Vec<AudioPacket<T>>) -> (order: Vec<usize>)
    ensures
        is_sequence_order(packets@, order@),
{
    let n = packets.len();
    let mut order: Vec<usize> = Vec::new();
    let mut i: usize = 0;
    while i < n
        invariant
            n == packets@.len(),
            i <= n,
            order@.len() == i,
            forall|k: int| 0 <= k < order@.len() ==> order@[k] < i,
            forall|j: int| 0 <= j < i ==> #[trigger] order@.contains(j as usize),
            forall|k1: int, k2: int|
                0 <= k1 < k2 < order@.len() ==> comes_before(
                    packets@,
                    #[trigger] order@[k1],
                    #[trigger] order@[k2],
                ),
        decreases n - i,
    {
        let key = packets[i].sequence_number;
        let mut pos: usize = order.len();
        while pos > 0 && packets[order[pos - 1]].sequence_number > key
            invariant
                n == packets@.len(),
                i < n,
                key == packets@[i as int].sequence_number,
                order@.len() == i,
                pos <= i,
                forall|k: int| 0 <= k < order@.len() ==> order@[k] < i,
                forall|k: int|
                    pos <= k < order@.len() ==> packets@[order@[k] as int].sequence_number > key,
            decreases pos,
        {
            pos = pos - 1;
        }
        let ghost before = order@;
        proof {
            if pos > 0 {
                assert(packets@[before[pos - 1] as int].sequence_number <= key);
                assert forall|k: int| 0 <= k < pos implies packets@[before[k] as int].sequence_number
                    <= key by {
                    if k < pos - 1 {
                        assert(comes_before(packets@, before[k], before[pos - 1]));
                    }
                }
            }
        }
        order.insert(pos, i);
        proof {
            let after = order@;
            assert(after == before.insert(pos as int, i));
            assert forall|k: int| 0 <= k < after.len() implies after[k] < i + 1 by {
                if k < pos {
                    assert(after[k] == before[k]);
                } else if k > pos {
                    assert(after[k] == before[k - 1]);
                }
            }
            assert forall|j: int| 0 <= j < i + 1 implies #[trigger] after.contains(j as usize) by {
                if j == i {
                    assert(after[pos as int] == i);
                } else {
                    assert(before.contains(j as usize));
                    let k = choose|k: int| 0 <= k < before.len() && before[k] == j as usize;
                    if k < pos {
                        assert(after[k] == before[k]);
                    } else {
                        assert(after[k + 1] == before[k]);
                    }
                }
            }
            assert forall|k1: int, k2: int| 0 <= k1 < k2 < after.len() implies comes_before(
                packets@,
                #[trigger] after[k1],
                #[trigger] after[k2],
            ) by {
                if k2 < pos {
                    assert(after[k1] == before[k1] && after[k2] == before[k2]);
                } else if k1 > pos {
                    assert(after[k1] == before[k1 - 1] && after[k2] == before[k2 - 1]);
                } else if k1 < pos && k2 > pos {
                    assert(after[k1] == before[k1] && after[k2] == before[k2 - 1]);
                    assert(comes_before(packets@, before[k1], before[k2 - 1]));
                } else if k1 == pos {
                    assert(after[k2] == before[k2 - 1]);
                } else {
                    assert(after[k1] == before[k1]);
                }
            }
        }
        i = i + 1;
    }
    order
}


/// Appends `gap * per_packet` silent samples to `out`.
fn push_silence<T: Copy>(out: &mut Vec<T>, gap: u64, per_packet: u64, zero: T)
    ensures
        final(out)@ == old(out)@ + silence(gap as nat * per_packet as nat, zero),
{
    let ghost base = out@;
    let mut m: u64 = 0;
    while m < gap
        invariant
            m <= gap,
            out@ == base + silence(m as nat * per_packet as nat, zero),
        decreases gap - m,
    {
        let ghost start = out@;
        let mut k: u64 = 0;
        while k < per_packet
            invariant
                k <= per_packet,
                out@ == start + silence(k as nat, zero),
            decreases per_packet - k,
        {
            out.push(zero);
            k = k + 1;
            assert(out@ =~= start + silence(k as nat, zero));
        }
        proof {
            assert((m + 1) as nat * per_packet as nat == m as nat * per_packet as nat
                + per_packet as nat) by (nonlinear_arith);
        }
        m = m + 1;
        assert(out@ =~= base + silence(m as nat * per_packet as nat, zero));
    }
}

/// Appends the samples of `data` to `out`.
fn push_samples<T: Copy>(out: &mut Vec<T>, data: &Vec<T>)
    ensures
        final(out)@ == old(out)@ + data@,
{
    let ghost base = out@;
    let mut j: usize = 0;
    while j < data.len()
        invariant
            j <= data@.len(),
            out@ == base + data@.take(j as int),
        decreases data@.len() - j,
    {
        out.push(data[j]);
        j = j + 1;
        assert(out@ =~= base + data@.take(j as int));
    }
    assert(data@.take(data@.len() as int) =~= data@);
}

/// Writes the packets in the order `order` gives, filling each run of missing
/// sequence numbers with `per_packet` silent samples per missing packet.
pub fn render_in_order<T: Copy>(
    packets: &Vec<AudioPacket<T>>,
    order: &Vec<usize>,
    per_packet: u64,
    zero: T,
) -> (r: Vec<T>)
    requires
        forall|k: int| 0 <= k < order@.len() ==> order@[k] < packets@.len(),
    ensures
        r@ == rendered(arrange(packets@, order@), per_packet as nat, zero),
{
    let ghost arranged = arrange(packets@, order@);
    let mut out: Vec<T> = Vec::new();
    let mut k: usize = 0;
    while k < order.len()
        invariant
            k <= order@.len(),
            arranged == arrange(packets@, order@),
            forall|k: int| 0 <= k < order@.len() ==> order@[k] < packets@.len(),
            out@ == rendered(arranged.take(k as int), per_packet as nat, zero),
        decreases order@.len() - k,
    {
        let ghost before = out@;
        let p = &packets[order[k]];
        let mut gap: u64 = 0;
        if k > 0 {
            let prev = packets[order[k - 1]].sequence_number;
            let cur = p.sequence_number;
            if cur > prev && cur - prev > 1 {
                gap = cur - prev - 1;
            }
            assert(gap == missing_between(prev, cur));
        }
        push_silence(&mut out, gap, per_packet, zero);
        push_samples(&mut out, &p.data);
        proof {
            let next = arranged.take(k + 1);
            assert(next.drop_last() =~= arranged.take(k as int));
            assert(next.last() == packets@[order@[k as int] as int]);
            if k > 0 {
                assert(next.drop_last().last() == packets@[order@[k - 1] as int]);
            }
        }
        k = k + 1;
    }
    assert(arranged.take(order@.len() as int) =~= arranged);
    out
}

/// The samples of a segment flushed from a queue snapshot: the packets sorted
/// by sequence number (queue order among equal ones), each missing sequence
/// number replaced by one packet duration of silence at `sample_rate`, for
/// each of the `channels` interleaved channels.
pub fn render_segment<T: Copy>(
    packets: &Vec<AudioPacket<T>>,
    duration: &PacketDuration,
    sample_rate: u32,
    channels: u16,
    zero: T,
) -> (r: Vec<T>)
    requires
        duration.sample_rate > 0,
        duration.spec_samples_at(sample_rate) * channels <= u64::MAX,
    ensures
        exists|order: Seq<usize>|
            is_sequence_order(packets@, order) && r@ == rendered(
                arrange(packets@, order),
                duration.spec_samples_at(sample_rate) * channels as nat,
                zero,
            ),
{
    let order = sequence_order(packets);
    let frames = duration.samples_at(sample_rate);
    let per_packet = frames * channels as u64;
    render_in_order(packets, &order, per_packet, zero)
}

proof fn lemma_rendered_len<T>(s: Seq<AudioPacket<T>>, frames: nat, zero: T)
    requires
        s.len() >= 1,
        forall|i: int, j: int|
            0 <= i < j < s.len() ==> #[trigger] s[i].sequence_number < #[trigger] s[j].sequence_number,
        forall|i: int| 0 <= i < s.len() ==> (#[trigger] s[i]).data@.len() == frames,
    ensures
        rendered(s, frames, zero).len() == (s.last().sequence_number - s[0].sequence_number + 1)
            * frames,
    decreases s.len(),
{
    let prefix = s.drop_last();
    let first = s[0].sequence_number as int;
    let cur = s.last().sequence_number as int;
    assert(s.last() == s[s.len() - 1]);
    assert(s.last().data@.len() == frames);
    if prefix.len() == 0 {
        assert(rendered(prefix, frames, zero).len() == 0);
        assert(rendered(s, frames, zero) == rendered(prefix, frames, zero) + silence(0, zero)
            + s.last().data@);
        assert(s.last() == s[0]);
        assert(rendered(s, frames, zero).len() == frames);
        assert(cur == first);
        assert((cur - first + 1) * frames == frames) by (nonlinear_arith)
            requires cur == first;
    } else {
        lemma_rendered_len(prefix, frames, zero);
        let prev = prefix.last().sequence_number as int;
        assert(prefix[0] == s[0]);
        assert(prefix.last() == s[s.len() - 2]);
        assert(prev < cur);
        let gap = missing_between(prev as u64, cur as u64);
        assert(gap == cur - prev - 1);
        assert(rendered(s, frames, zero) == rendered(prefix, frames, zero) + silence(
            gap * frames,
            zero,
        ) + s.last().data@);
        let a = rendered(prefix, frames, zero).len() as int;
        assert(a == (prev - first + 1) * frames);
        assert(rendered(s, frames, zero).len() == a + gap * frames + frames);
        assert((prev - first + 1) * frames + (cur - prev - 1) * frames + frames == (cur - first
            + 1) * frames) by (nonlinear_arith);
        assert(rendered(s, frames, zero).len() == (cur - first + 1) * frames);
    }
}

/// The length law of a flushed segment: when no two queued packets share a
/// sequence number and every packet holds the `frames` samples that one
/// missing packet is replaced by, the segment holds
/// `(max_sequence - min_sequence + 1) * frames` samples, the silence of every
/// missing packet included. The first and last packets in sequence order
/// carry the smallest and the largest sequence number.
pub proof fn lemma_segment_sample_count<T>(
    packets: Seq<AudioPacket<T>>,
    order: Seq<usize>,
    frames: nat,
    zero: T,
)
    requires
        packets.len() > 0,
        is_sequence_order(packets, order),
        forall|i: int, j: int|
            0 <= i < packets.len() && 0 <= j < packets.len() && i != j
                ==> #[trigger] packets[i].sequence_number != #[trigger] packets[j].sequence_number,
        forall|i: int| 0 <= i < packets.len() ==> (#[trigger] packets[i]).data@.len() == frames,
    ensures
        ({
            let s = arrange(packets, order);
            &&& forall|j: int|
                0 <= j < packets.len() ==> s[0].sequence_number <= (
                #[trigger] packets[j]).sequence_number <= s.last().sequence_number
            &&& rendered(s, frames, zero).len() == (s.last().sequence_number
                - s[0].sequence_number + 1) * frames
        }),
{
    let s = arrange(packets, order);
    assert forall|i: int, j: int|
        0 <= i < j < s.len() implies #[trigger] s[i].sequence_number
        < #[trigger] s[j].sequence_number by {
        assert(comes_before(packets, order[i], order[j]));
        assert(order[i] != order[j]) by {
            if order[i] == order[j] {
                assert(!(order[i] < order[j]));
            }
        }
    }
    assert forall|i: int| 0 <= i < s.len() implies (#[trigger] s[i]).data@.len() == frames by {
        assert(order[i] < packets.len());
    }
    lemma_rendered_len(s, frames, zero);
    assert forall|j: int| 0 <= j < packets.len() implies s[0].sequence_number <= (
    #[trigger] packets[j]).sequence_number <= s.last().sequence_number by {
        assert(order.contains(j as usize));
        let k = choose|k: int| 0 <= k < order.len() && order[k] == j as usize;
        assert(order[k] as int == j);
        assert(s[k] == packets[j]);
        if k > 0 {
            assert(s[0].sequence_number < s[k].sequence_number);
        }
        if k < s.len() - 1 {
            assert(s[k].sequence_number < s[s.len() - 1].sequence_number);
        }
    }
}

} // verus!
