// The mechanism piece by piece: window arithmetic in both stack-growth
// directions, capture buffers, the restore's overwrite, the one-way fresh
// transition, the resumption slot, and the trampoline's step bound.

use callcc::cont::window;
use callcc::machine::{CcOutcome, Machine, Outcome, MARGIN};
use callcc::payload::{Payload, Tag};

fn bytes(len: usize) -> Vec<u8> {
    let mut memory: Vec<u8> = Vec::new();
    let mut i: usize = 0;
    while i < len {
        memory.push((i % 251) as u8);
        i += 1;
    }
    memory
}

#[test]
fn window_orders_addresses() {
    // downward-growing stack: sp below the origin
    assert_eq!(window(64, 24), (24, 64, 40));
    // upward-growing stack: sp above the origin
    assert_eq!(window(0, 24), (0, 24, 24));
    // no bytes in use
    assert_eq!(window(32, 32), (32, 32, 0));
}

#[test]
fn capture_window_downward() {
    let mut m = Machine::new(bytes(64), 64);
    match m.make_continuation(24) {
        Outcome::Captured(id) => assert_eq!(id, 0),
        Outcome::Resumed(_) => panic!("nothing was pending"),
    }
    let k = &m.conts[0];
    assert_eq!(k.cstart, 24);
    assert_eq!(k.cend, 64);
    assert_eq!(k.csize, 40);
    assert_eq!(k.csize, k.cend - k.cstart);
    assert_eq!(k.cstack.len(), k.csize);
    assert!(k.fresh);
}

#[test]
fn capture_window_upward() {
    // an upward-growing stack: the origin is the low address
    let mut m = Machine::new(bytes(64), 0);
    match m.make_continuation(24) {
        Outcome::Captured(id) => assert_eq!(id, 0),
        Outcome::Resumed(_) => panic!("nothing was pending"),
    }
    let k = &m.conts[0];
    assert_eq!(k.cstart, 0);
    assert_eq!(k.cend, 24);
    assert_eq!(k.csize, 24);
    assert_eq!(k.cstack.len(), 24);
}

#[test]
fn capture_copies_window_bytes_verbatim() {
    let mut m = Machine::new(bytes(64), 64);
    m.make_continuation(40);
    let k = &m.conts[0];
    assert_eq!(k.cstack.as_slice(), &bytes(64)[40..64]);
}

#[test]
fn restore_overwrites_exactly_the_window() {
    let mut m = Machine::new(bytes(64), 64);
    m.make_continuation(40);
    // the live stack moves on after the capture: scribble over everything
    for i in 0..64 {
        m.memory[i] = 0xAA;
    }
    m.restore_continuation(0, Payload::Int(1), 40, 1000);
    let initial = bytes(64);
    // the window [40, 64) is the captured bytes again
    assert_eq!(&m.memory[40..64], &initial[40..64]);
    // bytes outside the window are untouched by the restore
    for i in 0..40 {
        assert_eq!(m.memory[i], 0xAA);
    }
}

#[test]
fn fresh_transitions_once_and_never_reverts() {
    let mut m = Machine::new(bytes(64), 64);
    m.make_continuation(40);
    assert!(m.conts[0].fresh);
    m.restore_continuation(0, Payload::Int(1), 40, 1000);
    assert!(!m.conts[0].fresh);
    m.make_continuation(40); // the landing clears the slot
    m.restore_continuation(0, Payload::Int(2), 40, 1000);
    assert!(!m.conts[0].fresh);
}

#[test]
fn slot_lifecycle() {
    let mut m = Machine::new(bytes(64), 64);
    assert!(m.slot.is_none());
    let id = match m.call_cc(40, Tag::Int) {
        CcOutcome::Run(id) => id,
        _ => panic!("first entry must be fresh"),
    };
    m.call_cont(id, Payload::Int(9), 40, 1000);
    assert!(matches!(m.slot, Some(Payload::Int(9))));
    let out = m.call_cc(40, Tag::Int);
    assert!(matches!(out, CcOutcome::Value(Payload::Int(9))));
    assert!(m.slot.is_none());
}

#[test]
fn trampoline_step_count() {
    let mut m = Machine::new(bytes(64), 64);
    m.make_continuation(40); // csize == 24, so the needed depth is 24 + MARGIN
    assert_eq!(MARGIN, 1024);
    // starting consumption 24, growing 1000 per attempt: 24 -> 1024 -> 2024,
    // and 2024 first exceeds 1048; exactly ceil((24 + 1024) / 1000) attempts
    let steps = m.restore_cont_jump(0, 40, 1000);
    assert_eq!(steps, 2);
}

#[test]
fn trampoline_with_large_growth_jumps_after_one_attempt() {
    let mut m = Machine::new(bytes(64), 64);
    m.make_continuation(40);
    let steps = m.restore_cont_jump(0, 40, 4096);
    assert_eq!(steps, 1);
}

#[test]
fn trampoline_with_empty_window() {
    let mut m = Machine::new(bytes(64), 64);
    m.make_continuation(64); // sp at the origin: a zero-byte window
    assert_eq!(m.conts[0].csize, 0);
    let steps = m.restore_cont_jump(0, 40, 512);
    // needed depth is MARGIN alone; 24 -> 536 -> 1048 > 1024
    assert_eq!(steps, 2);
    assert!(!m.conts[0].fresh);
}

#[test]
fn stack_size_and_origin() {
    let m = Machine::new(bytes(64), 48);
    assert_eq!(m.stack_origin(), 48);
    assert_eq!(m.stack_size(16), 32); // downward growth
    assert_eq!(m.stack_size(60), 12); // upward growth
    assert_eq!(m.stack_size(48), 0);
}

#[test]
fn multi_shot_many_resumptions() {
    let mut m = Machine::new(bytes(64), 64);
    let id = match m.call_cc(40, Tag::Int) {
        CcOutcome::Run(id) => id,
        _ => panic!("first entry must be fresh"),
    };
    for i in 0..5u32 {
        m.call_cont(id, Payload::Int(i * 7), 40, 1000);
        let out = m.call_cc(40, Tag::Int);
        match out {
            CcOutcome::Value(Payload::Int(v)) => assert_eq!(v, i * 7),
            _ => panic!("each resumption yields its own payload"),
        }
    }
    // the record still describes the same capture
    assert_eq!(m.conts[id].cstart, 40);
    assert_eq!(m.conts[id].cend, 64);
    assert_eq!(m.conts[id].cstack.len(), 24);
}

#[test]
fn captures_nest_independently() {
    let mut m = Machine::new(bytes(64), 64);
    m.make_continuation(48);
    m.make_continuation(16);
    assert_eq!(m.conts.len(), 2);
    assert_eq!(m.conts[0].csize, 16);
    assert_eq!(m.conts[1].csize, 48);
    // restoring the inner record leaves the outer record untouched
    m.restore_continuation(1, Payload::Int(5), 16, 1000);
    assert_eq!(m.conts[0].csize, 16);
    assert!(m.conts[0].fresh);
    assert!(!m.conts[1].fresh);
}
