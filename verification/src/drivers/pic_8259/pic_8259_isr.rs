//! The timer interrupt's scheduling: two processes run in turn, one tick
//! each. Saving and restoring the registers is the caller's.
use vstd::prelude::*;

verus! {

/// The context of a process: where it runs, its stack, its flags, its
/// code segment and its other registers.
#[derive(Debug, Copy, Clone)]
pub struct Process<R> {
    pub eip: u32,
    pub esp: u32,
    pub eflags: u32,
    pub segment: u32,
    pub registers: R,
}

/// The two processes before they first run: each at its entry point
/// (`entry_a`, `entry_b`) on its stack (`stack_a`, `stack_b`), with the
/// registers `registers`, in the code segment and with the flags of the
/// code the first tick interrupted.
pub fn initial_processes<R: Copy>(
    entry_a: u32,
    stack_a: u32,
    entry_b: u32,
    stack_b: u32,
    segment: u32,
    eflags: u32,
    registers: R,
) -> (r: Vec<Process<R>>)
    ensures
        r@ == seq![
            Process { eip: entry_a, esp: stack_a, eflags, segment, registers },
            Process { eip: entry_b, esp: stack_b, eflags, segment, registers },
        ],
{
    let mut r: Vec<Process<R>> = Vec::new();
    r.push(Process { eip: entry_a, esp: stack_a, eflags, segment, registers });
    r.push(Process { eip: entry_b, esp: stack_b, eflags, segment, registers });
    r
}

/// One tick of the timer, with `processes` the two processes, `current`
/// the one running (none before the first switch) and `interrupted` the
/// context the tick interrupted: the process to switch to. The first tick
/// switches to process 0; each later one saves the interrupted context as
/// the running process's and switches to the other.
pub fn schedule<R: Copy>(current: Option<usize>, processes: &mut Vec<Process<R>>, interrupted: Process<R>) -> (next: usize)
    requires
        old(processes)@.len() == 2,
        current matches Some(i) ==> i < 2,
    ensures
        next == match current {
            None => 0,
            Some(i) => (1 - i) as usize,
        },
        current is None ==> final(processes)@ == old(processes)@,
        current matches Some(i) ==> final(processes)@ == old(processes)@.update(i as int, interrupted),
{
    match current {
        None => 0,
        Some(i) => {
            processes.set(i, interrupted);
            if i == 0 {
                1
            } else {
                0
            }
        },
    }
}

} // verus!
