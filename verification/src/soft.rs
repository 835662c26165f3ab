//! The software RDP: an interpreter for raw command words operating on an [`Rdram`].
use vstd::prelude::*;
use crate::cmd::{command_words, opcode, spec_command_words, spec_opcode};
use crate::cmd::op::{
    NO_OP, SYNC_LOAD, SYNC_PIPE, SYNC_TILE, SYNC_FULL, SET_SCISSOR, SET_OTHER_MODES, SET_FILL_COLOR,
    SET_BLEND_COLOR, SET_COLOR_IMAGE, FILL_RECTANGLE,
};
use crate::raster::{
    fill_rectangle, one_cycle_rectangle, fill_rect_ok, fill_rect_mem, one_cycle_rect_ok,
    one_cycle_rect_mem, one_cycle_rect_handled, fill_rect_bounds, fill_target, writes_pixels,
    one_cycle_rect_bounds, one_cycle_rect_paints, blend_target, lemma_paint_rows_dom,
};
use crate::rdram::Rdram;
use crate::state::{CycleType, State};

verus! {

/// What one command does: the new pipeline state, whether it counts as unhandled, and the
/// memory afterwards.
pub open spec fn command_step(s: State, m: Map<u32, u8>, word: u64) -> (State, bool, Map<u32, u8>) {
    let op = spec_opcode(word);
    if op == NO_OP || op == SYNC_LOAD || op == SYNC_PIPE || op == SYNC_TILE || op == SYNC_FULL {
        // The syncs only affect pipeline timing, not results.
        (s, false, m)
    } else if op == SET_SCISSOR {
        (State { scissor: word, ..s }, false, m)
    } else if op == SET_OTHER_MODES {
        (State { other_modes: word, ..s }, false, m)
    } else if op == SET_FILL_COLOR {
        (State { fill_color: word as u32, ..s }, false, m)
    } else if op == SET_BLEND_COLOR {
        (State { blend_color: word as u32, ..s }, false, m)
    } else if op == SET_COLOR_IMAGE {
        (State { color_image: word, ..s }, false, m)
    } else if op == FILL_RECTANGLE {
        match s.spec_cycle_type() {
            CycleType::Fill => (s, false, fill_rect_mem(s, m, word)),
            CycleType::OneCycle => (
                s,
                !one_cycle_rect_handled(s, word),
                one_cycle_rect_mem(s, m, word),
            ),
            _ => (s, true, m),
        }
    } else {
        (s, true, m)
    }
}

/// The command touches only accessible memory and computes its addresses without overflow.
pub open spec fn command_ok(s: State, dom: Set<u32>, word: u64) -> bool {
    spec_opcode(word) == FILL_RECTANGLE ==> match s.spec_cycle_type() {
        CycleType::Fill => fill_rect_ok(s, dom, word),
        CycleType::OneCycle => one_cycle_rect_ok(s, dom, word),
        _ => true,
    }
}

/// The outcome (state, unhandled count, memory) of running `stream` from word index i on.
/// A truncated final command counts as unhandled and ends the run (the real DP would stall
/// waiting for more words).
pub open spec fn run_from(s: State, u: int, m: Map<u32, u8>, stream: Seq<u64>, i: int) -> (
    State,
    int,
    Map<u32, u8>,
)
    decreases stream.len() - i,
{
    if i < 0 || i >= stream.len() {
        (s, u, m)
    } else {
        let length = spec_command_words(spec_opcode(stream[i]));
        if i + length > stream.len() {
            (s, u + 1, m)
        } else {
            let (s2, unhandled, m2) = command_step(s, m, stream[i]);
            run_from(
                s2,
                if unhandled {
                    u + 1
                } else {
                    u
                },
                m2,
                stream,
                i + length,
            )
        }
    }
}

/// Running `stream` from word index i on touches only accessible memory, and the unhandled
/// counter stays within u32.
pub open spec fn run_ok(s: State, u: int, dom: Set<u32>, stream: Seq<u64>, i: int) -> bool
    decreases stream.len() - i,
{
    if i < 0 || i >= stream.len() {
        true
    } else {
        let length = spec_command_words(spec_opcode(stream[i]));
        if i + length > stream.len() {
            u + 1 <= u32::MAX
        } else {
            let (s2, unhandled, m2) = command_step(s, Map::empty(), stream[i]);
            &&& command_ok(s, dom, stream[i])
            &&& (unhandled ==> u + 1 <= u32::MAX)
            &&& run_ok(
                s2,
                if unhandled {
                    u + 1
                } else {
                    u
                },
                dom,
                stream,
                i + length,
            )
        }
    }
}

pub proof fn lemma_command_step_dom(s: State, m: Map<u32, u8>, word: u64)
    requires
        command_ok(s, m.dom(), word),
    ensures
        command_step(s, m, word).2.dom() == m.dom(),
        command_step(s, m, word).0 == command_step(s, Map::empty(), word).0,
        command_step(s, m, word).1 == command_step(s, Map::empty(), word).1,
{
    if spec_opcode(word) == FILL_RECTANGLE {
        match s.spec_cycle_type() {
            CycleType::Fill => {
                let (x0, x1, y0, y1) = fill_rect_bounds(s, word);
                if writes_pixels(fill_target(s)) {
                    lemma_paint_rows_dom(fill_target(s), m, y0, y1, x0, x1);
                }
            },
            CycleType::OneCycle => {
                let (x0, x1, y0, y1) = one_cycle_rect_bounds(s, word);
                if one_cycle_rect_paints(s, word) {
                    lemma_paint_rows_dom(blend_target(s), m, y0, y1, x0, x1);
                }
            },
            _ => {},
        }
    }
}

/// A command outside the implemented set is only counted, never guessed: it changes neither the
/// pipeline state nor memory.
pub proof fn unhandled_command_changes_nothing(s: State, m: Map<u32, u8>, word: u64)
    ensures
        command_step(s, m, word).1 ==> command_step(s, m, word).0 == s && command_step(
            s,
            m,
            word,
        ).2 == m,
{
}

/// The unhandled counter never decreases over a run.
pub proof fn run_unhandled_never_decreases(
    s: State,
    u: int,
    m: Map<u32, u8>,
    stream: Seq<u64>,
    i: int,
)
    ensures
        run_from(s, u, m, stream, i).1 >= u,
    decreases stream.len() - i,
{
    if 0 <= i < stream.len() {
        let length = spec_command_words(spec_opcode(stream[i]));
        if i + length <= stream.len() {
            let (s2, unhandled, m2) = command_step(s, m, stream[i]);
            run_unhandled_never_decreases(
                s2,
                if unhandled {
                    u + 1
                } else {
                    u
                },
                m2,
                stream,
                i + length,
            );
        }
    }
}

/// Only FillRectangle writes memory: a stream without one leaves memory as it was.
pub proof fn run_without_rectangles_keeps_memory(
    s: State,
    u: int,
    m: Map<u32, u8>,
    stream: Seq<u64>,
    i: int,
)
    requires
        forall|j: int| 0 <= j < stream.len() ==> spec_opcode(#[trigger] stream[j]) != FILL_RECTANGLE,
    ensures
        run_from(s, u, m, stream, i).2 == m,
    decreases stream.len() - i,
{
    if 0 <= i < stream.len() {
        let length = spec_command_words(spec_opcode(stream[i]));
        if i + length <= stream.len() {
            let (s2, unhandled, m2) = command_step(s, m, stream[i]);
            assert(m2 == m);
            run_without_rectangles_keeps_memory(
                s2,
                if unhandled {
                    u + 1
                } else {
                    u
                },
                m2,
                stream,
                i + length,
            );
        }
    }
}

/// `stream` from word index i on holds whole commands only: stepping by command lengths lands
/// exactly on its end.
pub open spec fn whole_commands(stream: Seq<u64>, i: int) -> bool
    decreases stream.len() - i,
{
    if i < 0 || i > stream.len() {
        false
    } else if i == stream.len() {
        true
    } else {
        let length = spec_command_words(spec_opcode(stream[i]));
        i + length <= stream.len() && whole_commands(stream, i + length)
    }
}

/// Running `a + b` from word `a.len() + k` on is running `b` from word k on.
proof fn lemma_run_shift(s: State, u: int, m: Map<u32, u8>, a: Seq<u64>, b: Seq<u64>, k: int)
    requires
        0 <= k,
    ensures
        run_from(s, u, m, a + b, a.len() + k) == run_from(s, u, m, b, k),
    decreases b.len() - k,
{
    let full = a + b;
    if k < b.len() {
        assert(full[a.len() + k] == b[k]);
        let length = spec_command_words(spec_opcode(b[k]));
        if k + length <= b.len() {
            let (s2, unhandled, m2) = command_step(s, m, b[k]);
            lemma_run_shift(
                s2,
                if unhandled {
                    u + 1
                } else {
                    u
                },
                m2,
                a,
                b,
                k + length,
            );
        }
    }
}

/// Running `a + b` from word i of `a` on, where `a` holds whole commands from i on, is running
/// `a` from i on and then `b` from the state, counter and memory that leaves.
proof fn lemma_run_joined(s: State, u: int, m: Map<u32, u8>, a: Seq<u64>, b: Seq<u64>, i: int)
    requires
        whole_commands(a, i),
    ensures
        run_from(s, u, m, a + b, i) == ({
            let (s1, u1, m1) = run_from(s, u, m, a, i);
            run_from(s1, u1, m1, b, 0)
        }),
    decreases a.len() - i,
{
    if i == a.len() {
        lemma_run_shift(s, u, m, a, b, 0);
    } else {
        let full = a + b;
        assert(full[i] == a[i]);
        let length = spec_command_words(spec_opcode(a[i]));
        let (s2, unhandled, m2) = command_step(s, m, a[i]);
        lemma_run_joined(
            s2,
            if unhandled {
                u + 1
            } else {
                u
            },
            m2,
            a,
            b,
            i + length,
        );
    }
}

/// Running a stream of whole commands and then a second stream is running the two joined: the
/// same pipeline state, unhandled count and memory.
pub proof fn run_of_joined_streams(s: State, u: int, m: Map<u32, u8>, a: Seq<u64>, b: Seq<u64>)
    requires
        whole_commands(a, 0),
    ensures
        run_from(s, u, m, a + b, 0) == ({
            let (s1, u1, m1) = run_from(s, u, m, a, 0);
            run_from(s1, u1, m1, b, 0)
        }),
{
    lemma_run_joined(s, u, m, a, b, 0);
}

/// Syncs and no-ops only affect pipeline timing, not results: a stream that starts with one
/// runs exactly like the stream without it.
pub proof fn leading_sync_changes_nothing(
    s: State,
    u: int,
    m: Map<u32, u8>,
    w: u64,
    rest: Seq<u64>,
)
    requires
        spec_opcode(w) == NO_OP || spec_opcode(w) == SYNC_LOAD || spec_opcode(w) == SYNC_PIPE
            || spec_opcode(w) == SYNC_TILE || spec_opcode(w) == SYNC_FULL,
    ensures
        run_from(s, u, m, seq![w] + rest, 0) == run_from(s, u, m, rest, 0),
{
    let first = seq![w];
    assert(first[0] == w);
    assert(whole_commands(first, 1));
    assert(whole_commands(first, 0));
    lemma_run_joined(s, u, m, first, rest, 0);
    assert(run_from(s, u, m, first, 1) == (s, u, m));
}

/// The software RDP. Commands outside the implemented set are counted in `unhandled` instead of
/// silently guessed.
pub struct SoftRdp {
    pub state: State,
    /// Number of commands (or command/state combinations) hit that this implementation does not
    /// cover yet.
    pub unhandled: u32,
}

impl SoftRdp {
    pub fn new() -> (r: SoftRdp)
        ensures
            r.state == State::zero(),
            r.unhandled == 0,
    {
        SoftRdp { state: State::new(), unhandled: 0 }
    }

    /// Runs a full command stream. `stream` is the same sequence of 64-bit words the real DP
    /// would fetch between DP_START and DP_END.
    pub fn run<R: Rdram>(&mut self, stream: &[u64], mem: &mut R)
        requires
            run_ok(old(self).state, old(self).unhandled as int, old(mem).bytes().dom(), stream@, 0),
        ensures
            (final(self).state, final(self).unhandled as int, final(mem).bytes()) == run_from(
                old(self).state,
                old(self).unhandled as int,
                old(mem).bytes(),
                stream@,
                0,
            ),
            final(mem).hidden() == old(mem).hidden(),
            forall|a: u32| #[trigger] final(mem).hidden_index(a) == old(mem).hidden_index(a),
    {
        let ghost s0 = self.state;
        let ghost u0 = self.unhandled as int;
        let ghost m0 = mem.bytes();
        let ghost h0 = mem.hidden();
        let mut index: usize = 0;
        while index < stream.len()
            invariant
                s0 == old(self).state && u0 == old(self).unhandled as int,
                m0 == old(mem).bytes() && h0 == old(mem).hidden(),
                index <= stream@.len(),
                run_from(s0, u0, m0, stream@, 0) == run_from(
                    self.state,
                    self.unhandled as int,
                    mem.bytes(),
                    stream@,
                    index as int,
                ),
                run_ok(self.state, self.unhandled as int, m0.dom(), stream@, index as int),
                mem.bytes().dom() == m0.dom(),
                mem.hidden() == h0,
                forall|a: u32| #[trigger] mem.hidden_index(a) == old(mem).hidden_index(a),
            decreases stream@.len() - index,
        {
            let length = command_words(opcode(stream[index]));
            if length > stream.len() - index {
                // Truncated command: the real DP would stall waiting for more words.
                assert(run_from(self.state, self.unhandled as int, mem.bytes(), stream@, index as int)
                    == (self.state, self.unhandled + 1, mem.bytes()));
                self.unhandled += 1;
                return;
            }
            let ghost before = mem.bytes();
            proof {
                lemma_command_step_dom(self.state, before, stream@[index as int]);
            }
            self.execute(&stream[index..index + length], mem);
            index += length;
        }
    }

    fn execute<R: Rdram>(&mut self, command: &[u64], mem: &mut R)
        requires
            command@.len() >= 1,
            command_ok(old(self).state, old(mem).bytes().dom(), command@[0]),
            command_step(old(self).state, old(mem).bytes(), command@[0]).1 ==> old(self).unhandled
                + 1 <= u32::MAX,
        ensures
            ({
                let (s, unhandled, m) = command_step(
                    old(self).state,
                    old(mem).bytes(),
                    command@[0],
                );
                &&& final(self).state == s
                &&& final(self).unhandled == if unhandled {
                    old(self).unhandled + 1
                } else {
                    old(self).unhandled as int
                }
                &&& final(mem).bytes() == m
            }),
            final(mem).hidden() == old(mem).hidden(),
            forall|a: u32| #[trigger] final(mem).hidden_index(a) == old(mem).hidden_index(a),
    {
        let word = command[0];
        match opcode(word) {
            NO_OP => {},
            // The syncs only affect pipeline timing, not results.
            SYNC_LOAD | SYNC_PIPE | SYNC_TILE | SYNC_FULL => {},
            SET_SCISSOR => self.state.scissor = word,
            SET_OTHER_MODES => self.state.other_modes = word,
            SET_FILL_COLOR => self.state.fill_color = word as u32,
            SET_BLEND_COLOR => self.state.blend_color = word as u32,
            SET_COLOR_IMAGE => self.state.color_image = word,
            FILL_RECTANGLE => match self.state.cycle_type() {
                CycleType::Fill => fill_rectangle(&self.state, mem, word),
                CycleType::OneCycle => {
                    if !one_cycle_rectangle(&self.state, mem, word) {
                        self.unhandled += 1;
                    }
                },
                _ => self.unhandled += 1,
            },
            _ => self.unhandled += 1,
        }
    }
}

impl Default for SoftRdp {
    fn default() -> (r: SoftRdp)
        ensures
            r.state == State::zero(),
            r.unhandled == 0,
    {
        SoftRdp::new()
    }
}

} // verus!
