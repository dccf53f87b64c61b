//! The per-voice note allocator.
//!
//! Incoming key and pedal events are mapped onto a fixed pool of polyphonic
//! voice slots. Allocation scans a round-robin cursor for a free voice and,
//! when none exists, steals the longest-held active voice from a FIFO replace
//! queue. A freshly allocated voice drives its gate output low and raises it
//! only on the second following process step, so envelope modules always
//! observe a full sample of gate-low before the rising edge, even when a
//! voice is reused instantly.
//!
//! Voices remember the integer note number they were allocated for, and key
//! release matches on that integer, so no derived signal values are compared.

use vstd::prelude::*;

use crate::fixed::FP_ONE;
use crate::ports::{
    MAX_POLY_COUNT, MIDI_GATE_OUTPUT, MIDI_NOTE_OUTPUT, MIDI_OUTPUT_OFFSET, MIDI_VELOCITY_OUTPUT,
    TOTAL_OUTPUT_COUNT,
};

verus! {

/// Fixed-point value written for a note or velocity byte: the byte divided
/// by 128, i.e. multiplied by `FP_ONE / 128`.
pub const NOTE_SCALE: i64 = 2097152;

/// One slot of polyphony.
#[derive(Clone, Copy, PartialEq, Eq, Structural, Debug)]
pub struct Voice {
    /// The key is physically held.
    pub pressed: bool,
    /// First phase of the two-phase trigger latch, set on allocation.
    pub trigger: bool,
    /// Second phase: the next process step sets this voice's gate output high.
    pub ready: bool,
    /// The voice is currently sounding.
    pub on: bool,
    /// Integer note number the voice was allocated for.
    pub note: u8,
}

impl Voice {
    /// An idle voice.
    pub fn new() -> (r: Voice)
        ensures
            r == idle_voice(),
    {
        Voice { pressed: false, trigger: false, ready: false, on: false, note: 0 }
    }
}

/// The idle voice value.
pub open spec fn idle_voice() -> Voice {
    Voice { pressed: false, trigger: false, ready: false, on: false, note: 0 }
}

/// The state a voice is put in when a key press allocates it.
pub open spec fn pressed_voice(note: u8) -> Voice {
    Voice { pressed: true, trigger: true, ready: false, on: true, note }
}

/// One process step of the two-phase trigger latch.
pub open spec fn process_voice(v: Voice) -> Voice {
    if v.trigger {
        Voice { trigger: false, ready: true, ..v }
    } else if v.ready {
        Voice { ready: false, ..v }
    } else {
        v
    }
}

/// Whether this process step drives the voice's gate output high.
pub open spec fn process_writes_gate(v: Voice) -> bool {
    !v.trigger && v.ready
}

/// Abstract state of the allocator.
pub struct MidiView {
    /// Sustain pedal held.
    pub sustain: bool,
    /// The voice pool.
    pub voices: Seq<Voice>,
    /// Round-robin scan cursor.
    pub next: int,
    /// FIFO of active voices, oldest allocation first.
    pub queue: Seq<int>,
}

/// The voice allocator.
pub struct Midi {
    sustain: bool,
    voices: Vec<Voice>,
    next: usize,
    replace_queue: Vec<usize>,
}

impl View for Midi {
    type V = MidiView;

    closed spec fn view(&self) -> MidiView {
        MidiView {
            sustain: self.sustain,
            voices: self.voices@,
            next: self.next as int,
            queue: self.replace_queue@.map_values(|x: usize| x as int),
        }
    }
}

/// Well-formedness: the pool has exactly `MAX_POLY_COUNT` voices, the cursor
/// is in range, and the replace queue holds exactly the active voices, each
/// once.
pub open spec fn midi_wf(m: MidiView) -> bool {
    &&& m.voices.len() == MAX_POLY_COUNT
    &&& 0 <= m.next < MAX_POLY_COUNT
    &&& forall|k: int|
        0 <= k < m.queue.len() ==> 0 <= #[trigger] m.queue[k] < MAX_POLY_COUNT
            && m.voices[m.queue[k]].on
    &&& forall|k1: int, k2: int|
        0 <= k1 < k2 < m.queue.len() ==> #[trigger] m.queue[k1] != #[trigger] m.queue[k2]
    &&& forall|i: int| 0 <= i < MAX_POLY_COUNT && #[trigger] m.voices[i].on ==> m.queue.contains(i)
}

/// Least offset `d >= lo` such that voice `(next + d) % MAX_POLY_COUNT` is
/// free, or `MAX_POLY_COUNT` if every voice in `[lo, MAX_POLY_COUNT)` is on.
pub open spec fn free_scan(voices: Seq<Voice>, next: int, lo: int) -> int
    decreases MAX_POLY_COUNT - lo when 0 <= lo <= MAX_POLY_COUNT
{
    if lo >= MAX_POLY_COUNT {
        MAX_POLY_COUNT as int
    } else if !voices[(next + lo) % (MAX_POLY_COUNT as int)].on {
        lo
    } else {
        free_scan(voices, next, lo + 1)
    }
}

/// The voice a key press allocates: the first free voice at or after the
/// cursor, or the head of the replace queue when every voice is on.
pub open spec fn alloc_voice(m: MidiView) -> int {
    let d = free_scan(m.voices, m.next, 0);
    if d < MAX_POLY_COUNT {
        (m.next + d) % (MAX_POLY_COUNT as int)
    } else {
        m.queue[0]
    }
}

/// Address of a voice's gate output in the flat output array.
pub open spec fn gate_addr(i: int) -> int {
    MIDI_OUTPUT_OFFSET + MIDI_GATE_OUTPUT + i
}

/// Address of a voice's note output in the flat output array.
pub open spec fn note_addr(i: int) -> int {
    MIDI_OUTPUT_OFFSET + MIDI_NOTE_OUTPUT + i
}

/// Address of a voice's velocity output in the flat output array.
pub open spec fn vel_addr(i: int) -> int {
    MIDI_OUTPUT_OFFSET + MIDI_VELOCITY_OUTPUT + i
}

/// The fixed-point signal written for a 7-bit note or velocity byte.
pub open spec fn byte_signal(b: u8) -> i64 {
    (b as int * NOTE_SCALE as int) as i64
}

/// How one key press transforms the allocator state and the output array.
pub open spec fn key_press_rel(
    pre: MidiView,
    pre_out: Seq<i64>,
    note: u8,
    velocity: u8,
    post: MidiView,
    post_out: Seq<i64>,
) -> bool {
    let d = free_scan(pre.voices, pre.next, 0);
    let v = alloc_voice(pre);
    &&& post.sustain == pre.sustain
    &&& post.voices == pre.voices.update(v, pressed_voice(note))
    &&& post.next == if d < MAX_POLY_COUNT {
        (pre.next + 1) % (MAX_POLY_COUNT as int)
    } else {
        pre.next
    }
    &&& post.queue == if d < MAX_POLY_COUNT {
        pre.queue.push(v)
    } else {
        pre.queue.drop_first().push(v)
    }
    &&& post_out == pre_out.update(note_addr(v), byte_signal(note)).update(
        gate_addr(v),
        0i64,
    ).update(vel_addr(v), byte_signal(velocity))
}

/// How one process step transforms the allocator state and the output array.
pub open spec fn process_rel(
    pre: MidiView,
    pre_out: Seq<i64>,
    post: MidiView,
    post_out: Seq<i64>,
) -> bool {
    &&& post.sustain == pre.sustain
    &&& post.next == pre.next
    &&& post.queue == pre.queue
    &&& post.voices.len() == pre.voices.len()
    &&& forall|i: int|
        0 <= i < pre.voices.len() ==> post.voices[i] == process_voice(#[trigger] pre.voices[i])
    &&& post_out.len() == pre_out.len()
    &&& forall|a: int|
        0 <= a < pre_out.len() ==> post_out[a] == (if gate_addr(0) <= a < gate_addr(
            MAX_POLY_COUNT as int,
        ) && process_writes_gate(pre.voices[a - gate_addr(0)]) {
            FP_ONE
        } else {
            pre_out[a]
        })
}

/// A voice released by `key_release` for `note`: it was sounding with that
/// note and the sustain pedal is not held.
pub open spec fn released_by_note(pre: MidiView, note: u8, i: int) -> bool {
    pre.voices[i].on && pre.voices[i].note == note && !pre.sustain
}

/// The per-voice effect of `key_release`.
pub open spec fn release_voice(v: Voice, note: u8, sustain: bool) -> Voice {
    if v.note == note {
        if !sustain && v.on {
            Voice { pressed: false, trigger: false, ready: false, on: false, ..v }
        } else {
            Voice { pressed: false, ..v }
        }
    } else {
        v
    }
}

/// A voice released by `pedal_release`: sounding but no longer held.
pub open spec fn released_by_pedal(pre: MidiView, i: int) -> bool {
    pre.voices[i].on && !pre.voices[i].pressed
}

/// The per-voice effect of `pedal_release`.
pub open spec fn pedal_release_voice(v: Voice) -> Voice {
    if v.on && !v.pressed {
        Voice { trigger: false, ready: false, on: false, ..v }
    } else {
        v
    }
}

proof fn lemma_scan_found(voices: Seq<Voice>, next: int, lo: int, d: int)
    requires
        voices.len() == MAX_POLY_COUNT,
        0 <= lo <= d < MAX_POLY_COUNT,
        forall|dd: int|
            lo <= dd < d ==> voices[#[trigger] ((next + dd) % (MAX_POLY_COUNT as int))].on,
        !voices[(next + d) % (MAX_POLY_COUNT as int)].on,
    ensures
        free_scan(voices, next, lo) == d,
    decreases d - lo,
{
    if lo < d {
        assert(voices[(next + lo) % (MAX_POLY_COUNT as int)].on);
        lemma_scan_found(voices, next, lo + 1, d);
    }
}

proof fn lemma_scan_none(voices: Seq<Voice>, next: int, lo: int)
    requires
        voices.len() == MAX_POLY_COUNT,
        0 <= lo <= MAX_POLY_COUNT,
        forall|dd: int|
            lo <= dd < MAX_POLY_COUNT ==> voices[#[trigger] ((next + dd) % (
            MAX_POLY_COUNT as int))].on,
    ensures
        free_scan(voices, next, lo) == MAX_POLY_COUNT,
    decreases MAX_POLY_COUNT - lo,
{
    if lo < MAX_POLY_COUNT {
        assert(voices[(next + lo) % (MAX_POLY_COUNT as int)].on);
        lemma_scan_none(voices, next, lo + 1);
    }
}

proof fn lemma_scan_result(voices: Seq<Voice>, next: int, lo: int)
    requires
        voices.len() == MAX_POLY_COUNT,
        0 <= lo <= MAX_POLY_COUNT,
    ensures
        lo <= free_scan(voices, next, lo) <= MAX_POLY_COUNT,
        free_scan(voices, next, lo) < MAX_POLY_COUNT ==> !voices[(next + free_scan(
            voices,
            next,
            lo,
        )) % (MAX_POLY_COUNT as int)].on,
        forall|dd: int|
            lo <= dd < free_scan(voices, next, lo) ==> voices[#[trigger] ((next + dd) % (
            MAX_POLY_COUNT as int))].on,
    decreases MAX_POLY_COUNT - lo,
{
    if lo < MAX_POLY_COUNT && voices[(next + lo) % (MAX_POLY_COUNT as int)].on {
        lemma_scan_result(voices, next, lo + 1);
    }
}

proof fn lemma_filter_push(s: Seq<int>, x: int, pred: spec_fn(int) -> bool)
    ensures
        s.push(x).filter(pred) == if pred(x) {
            s.filter(pred).push(x)
        } else {
            s.filter(pred)
        },
{
    reveal(Seq::filter);
    assert(s.push(x).drop_last() =~= s);
    assert(s.push(x).last() == x);
}

impl Midi {
    /// A fresh allocator: no voice sounding, cursor at zero, pedal up.
    pub fn new() -> (r: Midi)
        ensures
            midi_wf(r@),
            !r@.sustain,
            r@.next == 0,
            r@.queue.len() == 0,
            forall|i: int| 0 <= i < MAX_POLY_COUNT ==> r@.voices[i] == idle_voice(),
    {
        let mut voices: Vec<Voice> = Vec::new();
        for i in 0..MAX_POLY_COUNT
            invariant
                voices@.len() == i,
                forall|j: int| 0 <= j < i ==> voices@[j] == idle_voice(),
        {
            voices.push(Voice::new());
        }
        Midi { sustain: false, voices, next: 0, replace_queue: Vec::new() }
    }

    /// Least free offset from the cursor, or `MAX_POLY_COUNT` if every
    /// voice is on.
    fn scan_free(&self) -> (r: usize)
        requires
            midi_wf(self@),
        ensures
            r == free_scan(self@.voices, self@.next, 0),
            r <= MAX_POLY_COUNT,
    {
        for d in 0..MAX_POLY_COUNT
            invariant
                midi_wf(self@),
                forall|dd: int|
                    0 <= dd < d ==> self@.voices[#[trigger] ((self@.next + dd) % (
                    MAX_POLY_COUNT as int))].on,
        {
            let idx: usize = (self.next + d) % MAX_POLY_COUNT;
            if !self.voices[idx].on {
                proof {
                    lemma_scan_found(self@.voices, self@.next, 0, d as int);
                }
                return d;
            }
        }
        proof {
            lemma_scan_none(self@.voices, self@.next, 0);
        }
        MAX_POLY_COUNT
    }

    /// Drive the two-phase trigger latch of every voice one step forward,
    /// raising gate outputs of voices whose latch has completed.
    pub fn process(&mut self, output: &mut Vec<i64>)
        requires
            midi_wf(old(self)@),
            old(output)@.len() == TOTAL_OUTPUT_COUNT,
        ensures
            midi_wf(final(self)@),
            final(output)@.len() == TOTAL_OUTPUT_COUNT,
            process_rel(old(self)@, old(output)@, final(self)@, final(output)@),
    {
        let ghost pre = self@;
        let ghost pre_out = output@;
        for i in 0..MAX_POLY_COUNT
            invariant
                self@.voices.len() == MAX_POLY_COUNT,
                self@.sustain == pre.sustain,
                self@.next == pre.next,
                self@.queue == pre.queue,
                output@.len() == TOTAL_OUTPUT_COUNT,
                pre_out.len() == TOTAL_OUTPUT_COUNT,
                forall|j: int| 0 <= j < i ==> self@.voices[j] == process_voice(#[trigger] pre.voices[j]),
                forall|j: int| i <= j < MAX_POLY_COUNT ==> self@.voices[j] == #[trigger] pre.voices[j],
                forall|a: int|
                    0 <= a < TOTAL_OUTPUT_COUNT ==> output@[a] == (if gate_addr(0) <= a < gate_addr(
                        i as int,
                    ) && process_writes_gate(pre.voices[a - gate_addr(0)]) {
                        FP_ONE
                    } else {
                        pre_out[a]
                    }),
        {
            if self.voices[i].trigger {
                let v = self.voices[i];
                self.voices[i] = Voice { trigger: false, ready: true, ..v };
            } else if self.voices[i].ready {
                let v = self.voices[i];
                self.voices[i] = Voice { ready: false, ..v };
                output[MIDI_OUTPUT_OFFSET + MIDI_GATE_OUTPUT + i] = FP_ONE;
            }
        }
        proof {
            assert forall|i: int| 0 <= i < MAX_POLY_COUNT && #[trigger] self@.voices[i].on implies
                self@.queue.contains(i) by {
                assert(pre.voices[i].on == self@.voices[i].on);
            }
        }
    }

    /// Allocate a voice for a key press: the first free voice at or after
    /// the round-robin cursor, stealing the oldest active voice when the
    /// pool is full. Writes the note and velocity signals and drives the
    /// gate low; it rises two process steps later.
    pub fn key_press(&mut self, output: &mut Vec<i64>, note: u8, velocity: u8)
        requires
            midi_wf(old(self)@),
            old(output)@.len() == TOTAL_OUTPUT_COUNT,
        ensures
            midi_wf(final(self)@),
            final(output)@.len() == TOTAL_OUTPUT_COUNT,
            key_press_rel(old(self)@, old(output)@, note, velocity, final(self)@, final(output)@),
    {
        let ghost pre = self@;
        let d = self.scan_free();
        proof {
            lemma_scan_result(pre.voices, pre.next, 0);
        }
        let new_voice: usize;
        if d < MAX_POLY_COUNT {
            new_voice = (self.next + d) % MAX_POLY_COUNT;
            self.next = (self.next + 1) % MAX_POLY_COUNT;
            proof {
                // The scan stopped on a free voice, so it is not in the
                // replace queue, whose entries are all on.
                assert(!pre.voices[new_voice as int].on);
                assert(!pre.queue.contains(new_voice as int));
            }
        } else {
            // Every voice is on, so by well-formedness the replace queue is
            // not empty: steal its head, the longest-held active voice.
            proof {
                let dd: int = if pre.next == 0 { 0 } else { MAX_POLY_COUNT - pre.next };
                assert((pre.next + dd) % (MAX_POLY_COUNT as int) == 0);
                assert(pre.voices[0].on);
                assert(pre.queue.contains(0));
            }
            new_voice = self.replace_queue.remove(0);
            proof {
                assert(pre.queue[0] == new_voice as int);
                assert(self@.queue =~= pre.queue.drop_first());
            }
        }
        self.voices[new_voice] = Voice {
            pressed: true,
            trigger: true,
            ready: false,
            on: true,
            note,
        };
        output[MIDI_OUTPUT_OFFSET + MIDI_NOTE_OUTPUT + new_voice] = (note as i64) * NOTE_SCALE;
        output[MIDI_OUTPUT_OFFSET + MIDI_GATE_OUTPUT + new_voice] = 0;
        output[MIDI_OUTPUT_OFFSET + MIDI_VELOCITY_OUTPUT + new_voice] = (velocity as i64)
            * NOTE_SCALE;
        self.replace_queue.push(new_voice);
        proof {
            let v = new_voice as int;
            let post = self@;
            let stolen = free_scan(pre.voices, pre.next, 0) >= MAX_POLY_COUNT;
            let base = if stolen {
                pre.queue.drop_first()
            } else {
                pre.queue
            };
            assert(post.queue =~= base.push(v));
            assert(forall|k: int| 0 <= k < base.len() ==> #[trigger] base[k] == pre.queue[
            k + if stolen { 1int } else { 0int }]);
            // v occurs nowhere in base: free voices are not queued, and a
            // stolen head occurs only once in a duplicate-free queue.
            assert forall|k: int| 0 <= k < base.len() implies #[trigger] base[k] != v by {
                if !stolen {
                    assert(pre.queue[k] == base[k]);
                }
            }
            assert forall|k: int| 0 <= k < post.queue.len() implies 0 <= #[trigger] post.queue[k]
                < MAX_POLY_COUNT && post.voices[post.queue[k]].on by {
                if k < base.len() {
                    assert(post.queue[k] == base[k]);
                    assert(pre.voices[base[k]].on);
                    assert(base[k] != v);
                } else {
                    assert(post.queue[k] == v);
                }
            }
            assert forall|k1: int, k2: int| 0 <= k1 < k2 < post.queue.len() implies
                #[trigger] post.queue[k1] != #[trigger] post.queue[k2] by {
                if k2 == post.queue.len() - 1 {
                    assert(post.queue[k1] == base[k1]);
                    assert(post.queue[k2] == v);
                }
            }
            assert forall|i: int| 0 <= i < MAX_POLY_COUNT && #[trigger] post.voices[i].on implies
                post.queue.contains(i) by {
                if i == v {
                    assert(post.queue[post.queue.len() - 1] == v);
                } else {
                    assert(pre.voices[i].on);
                    let k = choose|k: int| 0 <= k < pre.queue.len() && pre.queue[k] == i;
                    if !stolen {
                        assert(post.queue[k] == i);
                    } else {
                        // The stolen head is voice v itself, so i sits past it.
                        assert(k != 0);
                        assert(post.queue[k - 1] == i);
                    }
                }
            }
        }
    }

    /// Release every voice holding `note`: mark it unpressed and, unless the
    /// sustain pedal is held, silence it, drive its gate low and drop it
    /// from the replace queue.
    pub fn key_release(&mut self, output: &mut Vec<i64>, note: u8)
        requires
            midi_wf(old(self)@),
            old(output)@.len() == TOTAL_OUTPUT_COUNT,
        ensures
            midi_wf(final(self)@),
            final(output)@.len() == TOTAL_OUTPUT_COUNT,
            final(self)@.sustain == old(self)@.sustain,
            final(self)@.next == old(self)@.next,
            final(self)@.queue == old(self)@.queue.filter(
                |x: int| !released_by_note(old(self)@, note, x),
            ),
            forall|i: int|
                0 <= i < MAX_POLY_COUNT ==> final(self)@.voices[i] == release_voice(
                    #[trigger] old(self)@.voices[i],
                    note,
                    old(self)@.sustain,
                ),
            forall|a: int|
                0 <= a < TOTAL_OUTPUT_COUNT ==> final(output)@[a] == (if gate_addr(0) <= a
                    < gate_addr(MAX_POLY_COUNT as int) && released_by_note(
                    old(self)@,
                    note,
                    a - gate_addr(0),
                ) {
                    0i64
                } else {
                    old(output)@[a]
                }),
    {
        let ghost pre = self@;
        let ghost pred = |x: int| !released_by_note(pre, note, x);
        // Rebuild the replace queue first, while the voices still carry
        // their pre-release state.
        let mut kept: Vec<usize> = Vec::new();
        let qlen = self.replace_queue.len();
        for k in 0..qlen
            invariant
                qlen == self.replace_queue@.len(),
                self == old(self),
                midi_wf(pre),
                pre == self@,
                kept@.map_values(|x: usize| x as int) == pre.queue.take(k as int).filter(pred),
                pred == (|x: int| !released_by_note(pre, note, x)),
        {
            let x = self.replace_queue[k];
            proof {
                assert(pre.queue[k as int] == x as int);
                assert(pre.queue.take(k + 1) =~= pre.queue.take(k as int).push(x as int));
                lemma_filter_push(pre.queue.take(k as int), x as int, pred);
            }
            if self.sustain || !(self.voices[x].on && self.voices[x].note == note) {
                kept.push(x);
            }
        }
        proof {
            assert(pre.queue.take(qlen as int) =~= pre.queue);
        }
        self.replace_queue = kept;
        // Now update the voices and their gate outputs.
        let ghost mid = self@;
        let ghost pre_out = output@;
        for i in 0..MAX_POLY_COUNT
            invariant
                self@.voices.len() == MAX_POLY_COUNT,
                self@.sustain == pre.sustain,
                self@.next == pre.next,
                self@.queue == mid.queue,
                pre.voices.len() == MAX_POLY_COUNT,
                output@.len() == TOTAL_OUTPUT_COUNT,
                pre_out.len() == TOTAL_OUTPUT_COUNT,
                forall|j: int|
                    0 <= j < i ==> self@.voices[j] == release_voice(
                        #[trigger] pre.voices[j],
                        note,
                        pre.sustain,
                    ),
                forall|j: int| i <= j < MAX_POLY_COUNT ==> self@.voices[j] == #[trigger] pre.voices[j],
                forall|a: int|
                    0 <= a < TOTAL_OUTPUT_COUNT ==> output@[a] == (if gate_addr(0) <= a < gate_addr(
                        i as int,
                    ) && released_by_note(pre, note, a - gate_addr(0)) {
                        0i64
                    } else {
                        pre_out[a]
                    }),
        {
            if self.voices[i].note == note {
                if !self.sustain && self.voices[i].on {
                    let v = self.voices[i];
                    self.voices[i] = Voice {
                        pressed: false,
                        trigger: false,
                        ready: false,
                        on: false,
                        ..v
                    };
                    output[MIDI_OUTPUT_OFFSET + MIDI_GATE_OUTPUT + i] = 0;
                } else {
                    let v = self.voices[i];
                    self.voices[i] = Voice { pressed: false, ..v };
                }
            }
        }
        proof {
            lemma_release_wf(pre, note, self@);
        }
    }

    /// Hold the sustain pedal: releases stop silencing voices.
    pub fn pedal_press(&mut self)
        requires
            midi_wf(old(self)@),
        ensures
            midi_wf(final(self)@),
            final(self)@ == (MidiView { sustain: true, ..old(self)@ }),
    {
        self.sustain = true;
    }

    /// Lift the sustain pedal: every sounding voice whose key is no longer
    /// held is silenced, its gate driven low and dropped from the replace
    /// queue.
    pub fn pedal_release(&mut self, output: &mut Vec<i64>)
        requires
            midi_wf(old(self)@),
            old(output)@.len() == TOTAL_OUTPUT_COUNT,
        ensures
            midi_wf(final(self)@),
            final(output)@.len() == TOTAL_OUTPUT_COUNT,
            !final(self)@.sustain,
            final(self)@.next == old(self)@.next,
            final(self)@.queue == old(self)@.queue.filter(
                |x: int| !released_by_pedal(old(self)@, x),
            ),
            forall|i: int|
                0 <= i < MAX_POLY_COUNT ==> final(self)@.voices[i] == pedal_release_voice(
                    #[trigger] old(self)@.voices[i],
                ),
            forall|a: int|
                0 <= a < TOTAL_OUTPUT_COUNT ==> final(output)@[a] == (if gate_addr(0) <= a
                    < gate_addr(MAX_POLY_COUNT as int) && released_by_pedal(
                    old(self)@,
                    a - gate_addr(0),
                ) {
                    0i64
                } else {
                    old(output)@[a]
                }),
    {
        let ghost pre = self@;
        let ghost pred = |x: int| !released_by_pedal(pre, x);
        self.sustain = false;
        let mut kept: Vec<usize> = Vec::new();
        let qlen = self.replace_queue.len();
        for k in 0..qlen
            invariant
                qlen == self.replace_queue@.len(),
                midi_wf(pre),
                self@.voices == pre.voices,
                self@.queue == pre.queue,
                self@.next == pre.next,
                kept@.map_values(|x: usize| x as int) == pre.queue.take(k as int).filter(pred),
                pred == (|x: int| !released_by_pedal(pre, x)),
        {
            let x = self.replace_queue[k];
            proof {
                assert(pre.queue[k as int] == x as int);
                assert(pre.queue.take(k + 1) =~= pre.queue.take(k as int).push(x as int));
                lemma_filter_push(pre.queue.take(k as int), x as int, pred);
            }
            if !(self.voices[x].on && !self.voices[x].pressed) {
                kept.push(x);
            }
        }
        proof {
            assert(pre.queue.take(qlen as int) =~= pre.queue);
        }
        self.replace_queue = kept;
        let ghost mid = self@;
        let ghost pre_out = output@;
        for i in 0..MAX_POLY_COUNT
            invariant
                self@.voices.len() == MAX_POLY_COUNT,
                !self@.sustain,
                self@.next == pre.next,
                self@.queue == mid.queue,
                pre.voices.len() == MAX_POLY_COUNT,
                output@.len() == TOTAL_OUTPUT_COUNT,
                pre_out.len() == TOTAL_OUTPUT_COUNT,
                forall|j: int|
                    0 <= j < i ==> self@.voices[j] == pedal_release_voice(#[trigger] pre.voices[j]),
                forall|j: int| i <= j < MAX_POLY_COUNT ==> self@.voices[j] == #[trigger] pre.voices[j],
                forall|a: int|
                    0 <= a < TOTAL_OUTPUT_COUNT ==> output@[a] == (if gate_addr(0) <= a < gate_addr(
                        i as int,
                    ) && released_by_pedal(pre, a - gate_addr(0)) {
                        0i64
                    } else {
                        pre_out[a]
                    }),
        {
            if self.voices[i].on && !self.voices[i].pressed {
                let v = self.voices[i];
                self.voices[i] = Voice { trigger: false, ready: false, on: false, ..v };
                output[MIDI_OUTPUT_OFFSET + MIDI_GATE_OUTPUT + i] = 0;
            }
        }
        proof {
            lemma_pedal_release_wf(pre, self@);
        }
    }
}

proof fn lemma_release_wf(pre: MidiView, note: u8, post: MidiView)
    requires
        midi_wf(pre),
        post.voices.len() == MAX_POLY_COUNT,
        0 <= post.next < MAX_POLY_COUNT,
        post.queue == pre.queue.filter(|x: int| !released_by_note(pre, note, x)),
        forall|i: int|
            0 <= i < MAX_POLY_COUNT ==> post.voices[i] == release_voice(
                #[trigger] pre.voices[i],
                note,
                pre.sustain,
            ),
    ensures
        midi_wf(post),
{
    let pred = |x: int| !released_by_note(pre, note, x);
    broadcast use vstd::seq_lib::group_filter_ensures;

    lemma_filter_sub(pre.queue, pred);
    assert forall|i: int| 0 <= i < MAX_POLY_COUNT && #[trigger] post.voices[i].on implies
        post.queue.contains(i) by {
        assert(pre.voices[i].on);
        assert(pred(i));
        let k = choose|k: int| 0 <= k < pre.queue.len() && pre.queue[k] == i;
        pre.queue.lemma_filter_contains(pred, k);
        assert(post.queue.contains(i));
    }
    assert forall|k: int| 0 <= k < post.queue.len() implies 0 <= #[trigger] post.queue[k]
        < MAX_POLY_COUNT && post.voices[post.queue[k]].on by {
        assert(pred(post.queue[k]));
        assert(pre.queue.contains(post.queue[k]));
    }
}

proof fn lemma_pedal_release_wf(pre: MidiView, post: MidiView)
    requires
        midi_wf(pre),
        post.voices.len() == MAX_POLY_COUNT,
        0 <= post.next < MAX_POLY_COUNT,
        post.queue == pre.queue.filter(|x: int| !released_by_pedal(pre, x)),
        forall|i: int|
            0 <= i < MAX_POLY_COUNT ==> post.voices[i] == pedal_release_voice(
                #[trigger] pre.voices[i],
            ),
    ensures
        midi_wf(post),
{
    let pred = |x: int| !released_by_pedal(pre, x);
    broadcast use vstd::seq_lib::group_filter_ensures;

    lemma_filter_sub(pre.queue, pred);
    assert forall|i: int| 0 <= i < MAX_POLY_COUNT && #[trigger] post.voices[i].on implies
        post.queue.contains(i) by {
        assert(pre.voices[i].on);
        assert(pred(i));
        let k = choose|k: int| 0 <= k < pre.queue.len() && pre.queue[k] == i;
        pre.queue.lemma_filter_contains(pred, k);
    }
    assert forall|k: int| 0 <= k < post.queue.len() implies 0 <= #[trigger] post.queue[k]
        < MAX_POLY_COUNT && post.voices[post.queue[k]].on by {
        assert(pred(post.queue[k]));
        assert(pre.queue.contains(post.queue[k]));
    }
}

/// The allocator has handed out exactly the voices `start, start+1, ...,
/// start+k-1` (mod pool size), in that order, and none has been released:
/// the shape a fresh allocator reaches after `k` key presses.
pub open spec fn round_robin_state(m: MidiView, start: int, k: int) -> bool {
    &&& midi_wf(m)
    &&& 0 <= start < MAX_POLY_COUNT
    &&& 0 <= k <= MAX_POLY_COUNT
    &&& m.next == (start + k) % (MAX_POLY_COUNT as int)
    &&& m.queue.len() == k
    &&& forall|j: int| 0 <= j < k ==> #[trigger] m.queue[j] == (start + j) % (MAX_POLY_COUNT as int)
}

/// A fresh allocator is the start of a round-robin run: no voice handed
/// out yet, cursor at zero.
pub proof fn lemma_fresh_round_robin(m: MidiView)
    requires
        midi_wf(m),
        m.next == 0,
        m.queue.len() == 0,
    ensures
        round_robin_state(m, 0, 0),
{
}

/// Round-robin allocation: while the pool is not exhausted, each key press
/// activates the next voice in increasing round-robin order. Applied
/// inductively from a fresh allocator, pressing `n` distinct notes
/// activates `n` distinct voices `start, start+1, ..., start+n-1`.
pub proof fn lemma_round_robin_press(
    m: MidiView,
    o: Seq<i64>,
    note: u8,
    velocity: u8,
    m1: MidiView,
    o1: Seq<i64>,
    start: int,
    k: int,
)
    requires
        round_robin_state(m, start, k),
        k < MAX_POLY_COUNT,
        key_press_rel(m, o, note, velocity, m1, o1),
        midi_wf(m1),
    ensures
        alloc_voice(m) == (start + k) % (MAX_POLY_COUNT as int),
        round_robin_state(m1, start, k + 1),
{
    let n = MAX_POLY_COUNT as int;
    let v = (start + k) % n;
    assert(m.next == v);
    assert(!m.voices[v].on) by {
        if m.voices[v].on {
            assert(m.queue.contains(v));
            let j = choose|j: int| 0 <= j < m.queue.len() && m.queue[j] == v;
            assert(m.queue[j] == (start + j) % n);
            assert((start + j) % n == (start + k) % n);
            assert(false);
        }
    }
    lemma_scan_found(m.voices, m.next, 0, 0);
    assert(free_scan(m.voices, m.next, 0) == 0);
    assert(alloc_voice(m) == v);
    assert(m1.next == (v + 1) % n);
    assert((v + 1) % n == (start + (k + 1)) % n);
    assert(m1.queue =~= m.queue.push(v));
    assert forall|j: int| 0 <= j < k + 1 implies #[trigger] m1.queue[j] == (start + j) % n by {
        if j < k {
            assert(m1.queue[j] == m.queue[j]);
        }
    }
}

/// Voice stealing: when every voice of the pool is active, a key press
/// steals the head of the replace queue, which in a round-robin run is the
/// very first voice that was allocated.
pub proof fn lemma_round_robin_steal(
    m: MidiView,
    o: Seq<i64>,
    note: u8,
    velocity: u8,
    m1: MidiView,
    o1: Seq<i64>,
    start: int,
)
    requires
        round_robin_state(m, start, MAX_POLY_COUNT as int),
        key_press_rel(m, o, note, velocity, m1, o1),
    ensures
        alloc_voice(m) == start,
{
    let n = MAX_POLY_COUNT as int;
    assert forall|dd: int| 0 <= dd < n implies m.voices[#[trigger] ((m.next + dd) % n)].on by {
        let i = (m.next + dd) % n;
        let j: int = if i >= start {
            i - start
        } else {
            i + n - start
        };
        assert((start + j) % n == i);
        assert(m.queue[j] == i);
    }
    lemma_scan_none(m.voices, m.next, 0);
    assert(m.queue[0] == (start + 0) % n);
    assert((start + 0) % n == start);
}

/// Gate two-phase delay: after a key press, the allocated voice's gate
/// output is low, stays low through exactly one process step, and is driven
/// high by the second.
pub proof fn lemma_gate_two_phase(
    m0: MidiView,
    o0: Seq<i64>,
    note: u8,
    velocity: u8,
    m1: MidiView,
    o1: Seq<i64>,
    m2: MidiView,
    o2: Seq<i64>,
    m3: MidiView,
    o3: Seq<i64>,
)
    requires
        midi_wf(m0),
        o0.len() == TOTAL_OUTPUT_COUNT,
        key_press_rel(m0, o0, note, velocity, m1, o1),
        process_rel(m1, o1, m2, o2),
        process_rel(m2, o2, m3, o3),
    ensures
        0 <= alloc_voice(m0) < MAX_POLY_COUNT,
        o1[gate_addr(alloc_voice(m0))] == 0,
        o2[gate_addr(alloc_voice(m0))] == 0,
        o3[gate_addr(alloc_voice(m0))] == FP_ONE,
{
    let n = MAX_POLY_COUNT as int;
    let v = alloc_voice(m0);
    lemma_scan_result(m0.voices, m0.next, 0);
    assert(0 <= v < n) by {
        if free_scan(m0.voices, m0.next, 0) >= n {
            let dd: int = if m0.next == 0 {
                0
            } else {
                n - m0.next
            };
            assert((m0.next + dd) % n == 0);
            assert(m0.voices[0].on);
            assert(m0.queue.contains(0));
        }
    }
    assert(o1[gate_addr(v)] == 0);
    assert(m1.voices[v] == pressed_voice(note));
    assert(o2[gate_addr(v)] == 0);
    assert(m2.voices[v] == process_voice(pressed_voice(note)));
    assert(process_writes_gate(m2.voices[v]));
    assert(o3[gate_addr(v)] == FP_ONE);
}

/// Once a voice's gate output is high, a process step keeps it high: the
/// gate stays up until a release drives it low.
pub proof fn lemma_gate_stays_high(m: MidiView, o: Seq<i64>, m1: MidiView, o1: Seq<i64>, v: int)
    requires
        process_rel(m, o, m1, o1),
        o.len() == TOTAL_OUTPUT_COUNT,
        0 <= v < MAX_POLY_COUNT,
        o[gate_addr(v)] == FP_ONE,
    ensures
        o1[gate_addr(v)] == FP_ONE,
{
}

/// A filtered queue is a subsequence: every element came from the original,
/// in order, and distinctness is preserved.
proof fn lemma_filter_sub(s: Seq<int>, pred: spec_fn(int) -> bool)
    ensures
        forall|k: int|
            0 <= k < s.filter(pred).len() ==> s.contains(#[trigger] s.filter(pred)[k]),
        (forall|k1: int, k2: int| 0 <= k1 < k2 < s.len() ==> #[trigger] s[k1] != #[trigger] s[k2])
            ==> (forall|k1: int, k2: int|
            0 <= k1 < k2 < s.filter(pred).len() ==> #[trigger] s.filter(pred)[k1]
                != #[trigger] s.filter(pred)[k2]),
    decreases s.len(),
{
    reveal(Seq::filter);
    broadcast use vstd::seq_lib::group_filter_ensures;

    if s.len() > 0 {
        lemma_filter_sub(s.drop_last(), pred);
        let f = s.filter(pred);
        let fd = s.drop_last().filter(pred);
        assert forall|k: int| 0 <= k < f.len() implies s.contains(#[trigger] f[k]) by {
            if k < fd.len() {
                assert(fd[k] == f[k]);
                let j = choose|j: int| 0 <= j < s.drop_last().len() && s.drop_last()[j] == fd[k];
                assert(s[j] == f[k]);
            } else {
                assert(f[k] == s.last());
                assert(s[s.len() - 1] == s.last());
            }
        }
        if forall|k1: int, k2: int| 0 <= k1 < k2 < s.len() ==> #[trigger] s[k1] != #[trigger] s[k2] {
            assert forall|k1: int, k2: int|
                0 <= k1 < k2 < s.len() - 1 implies #[trigger] s.drop_last()[k1]
                != #[trigger] s.drop_last()[k2] by {
                assert(s[k1] == s.drop_last()[k1]);
                assert(s[k2] == s.drop_last()[k2]);
            }
            assert forall|k1: int, k2: int| 0 <= k1 < k2 < f.len() implies #[trigger] f[k1]
                != #[trigger] f[k2] by {
                if k2 < fd.len() {
                    assert(f[k1] == fd[k1] && f[k2] == fd[k2]);
                } else if pred(s.last()) {
                    // f == fd.push(s.last()): the last element is s.last(),
                    // distinct from everything drawn from drop_last only if
                    // s.last() does not occur earlier, which distinctness of
                    // s gives us.
                    assert(f[k2] == s.last());
                    assert(f[k1] == fd[k1]);
                    let j = choose|j: int|
                        0 <= j < s.drop_last().len() && s.drop_last()[j] == fd[k1];
                    assert(s[j] == fd[k1]);
                    assert(s[s.len() - 1] == s.last());
                }
            }
        }
    }
}

} // verus!
