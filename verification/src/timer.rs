//! The timer: a free-running divider and a counter whose rate software picks.
//!
//! Four registers are visible on the bus: DIV at 0xff04, TIMA at 0xff05, TMA at
//! 0xff06 and TAC at 0xff07. Three accumulators are not: the cycles not yet
//! turned into a tick, the ticks towards the next count of TIMA, and the ticks
//! towards the next count of DIV.

use vstd::prelude::*;
use crate::bits::wrap8;

verus! {

pub const TIMER_ADDR_START: usize = 0xff04;

pub const TIMER_ADDR_END: usize = 0xff07;

/// The address of the counter TIMA.
pub const TIMA_ADDR: usize = 0xff05;

/// The address of TMA, from which TIMA is loaded when it overflows.
pub const TMA_ADDR: usize = 0xff06;

/// The byte that a read outside the timer's four registers gives.
pub const TIMER_BAD_READ: u8 = 0xED;

/// Cycles that make one tick of the timer's source clock.
pub const CYCLES_PER_TICK: u8 = 4;

/// Ticks that make one count of DIV.
pub const TICKS_PER_DIV: u8 = 16;

const DIV: usize = 0;

const TIMA: usize = 1;

const TMA: usize = 2;

const TAC: usize = 3;

/// What a timer holds.
pub struct TimerState {
    pub source_timer: u8,
    pub div_prescaler: u8,
    pub update_source: u8,
    pub div: u8,
    pub tima: u8,
    pub tma: u8,
    pub tac: u8,
}

/// Whether an address is one of the timer's four.
pub open spec fn is_timer_address(index: int) -> bool {
    TIMER_ADDR_START <= index <= TIMER_ADDR_END
}

/// The ticks between two counts of TIMA that a control byte selects.
pub open spec fn counter_threshold(tac: u8) -> u8 {
    match tac & 0x3 {
        0 => 64u8,
        1 => 1u8,
        2 => 4u8,
        3 => 16u8,
        _ => 0u8,
    }
}

impl TimerState {
    /// The timer after reset: every register and accumulator at zero.
    pub open spec fn reset() -> TimerState {
        TimerState {
            source_timer: 0,
            div_prescaler: 0,
            update_source: 0,
            div: 0,
            tima: 0,
            tma: 0,
            tac: 0,
        }
    }

    /// The register at a bus address, or `TIMER_BAD_READ` outside the four.
    pub open spec fn read(self, index: int) -> u8 {
        if index == TIMER_ADDR_START + 0 {
            self.div
        } else if index == TIMER_ADDR_START + 1 {
            self.tima
        } else if index == TIMER_ADDR_START + 2 {
            self.tma
        } else if index == TIMER_ADDR_START + 3 {
            self.tac
        } else {
            TIMER_BAD_READ
        }
    }

    /// The timer with one register written; unchanged outside the four.
    pub open spec fn write(self, index: int, value: u8) -> TimerState {
        if index == TIMER_ADDR_START + 0 {
            TimerState { div: value, ..self }
        } else if index == TIMER_ADDR_START + 1 {
            TimerState { tima: value, ..self }
        } else if index == TIMER_ADDR_START + 2 {
            TimerState { tma: value, ..self }
        } else if index == TIMER_ADDR_START + 3 {
            TimerState { tac: value, ..self }
        } else {
            self
        }
    }

    /// Whether TAC has the counter switched on.
    pub open spec fn enabled(self) -> bool {
        self.tac & 0x4 > 0
    }

    /// Whether these cycles complete a tick of the source clock.
    pub open spec fn ticks(self, cycles: u8) -> bool {
        wrap8(self.update_source + cycles) >= CYCLES_PER_TICK
    }

    /// Whether these cycles make TIMA count.
    pub open spec fn counts(self, cycles: u8) -> bool {
        self.ticks(cycles) && self.enabled() && wrap8(self.source_timer + 1) >= counter_threshold(
            self.tac,
        )
    }

    /// Whether these cycles make TIMA overflow, which requests the timer
    /// interrupt.
    pub open spec fn overflows(self, cycles: u8) -> bool {
        self.counts(cycles) && self.tima == 255
    }

    /// The timer after these cycles. A call completes at most one tick. On a
    /// tick DIV counts every sixteenth time, and TIMA counts when it is switched
    /// on and the selected number of ticks has passed; from 255 it goes to TMA.
    pub open spec fn advance(self, cycles: u8) -> TimerState {
        let pending = wrap8(self.update_source + cycles);
        if !self.ticks(cycles) {
            TimerState { update_source: pending, ..self }
        } else {
            let prescaler = wrap8(self.div_prescaler + 1);
            TimerState {
                update_source: (pending - CYCLES_PER_TICK) as u8,
                source_timer: if self.counts(cycles) {
                    0
                } else {
                    wrap8(self.source_timer + 1)
                },
                div_prescaler: if prescaler == TICKS_PER_DIV {
                    0
                } else {
                    prescaler
                },
                div: if prescaler == TICKS_PER_DIV {
                    wrap8(self.div + 1)
                } else {
                    self.div
                },
                tima: if !self.counts(cycles) {
                    self.tima
                } else if self.tima == 255 {
                    self.tma
                } else {
                    (self.tima + 1) as u8
                },
                tma: self.tma,
                tac: self.tac,
            }
        }
    }
}

pub struct Timer {
    source_timer: u8,
    div_prescaler: u8,
    update_source: u8,
    memory_registers: [u8; 4],
}

impl View for Timer {
    type V = TimerState;

    closed spec fn view(&self) -> TimerState {
        TimerState {
            source_timer: self.source_timer,
            div_prescaler: self.div_prescaler,
            update_source: self.update_source,
            div: self.memory_registers[DIV as int],
            tima: self.memory_registers[TIMA as int],
            tma: self.memory_registers[TMA as int],
            tac: self.memory_registers[TAC as int],
        }
    }
}

impl Timer {
    pub fn new() -> (timer: Timer)
        ensures
            timer@ == TimerState::reset(),
    {
        Timer {
            source_timer: 0,
            div_prescaler: 0,
            update_source: 0,
            memory_registers: [0, 0, 0, 0],
        }
    }

    /// Reads one of the four registers; any other address gives
    /// `TIMER_BAD_READ`.
    pub fn read_memory(&self, index: usize) -> (value: u8)
        ensures
            value == self@.read(index as int),
    {
        if index >= TIMER_ADDR_START && index <= TIMER_ADDR_END {
            self.memory_registers[index - TIMER_ADDR_START]
        } else {
            TIMER_BAD_READ
        }
    }

    /// Writes one of the four registers; any other address is ignored.
    pub fn write_memory(&mut self, index: usize, value: u8)
        ensures
            final(self)@ == old(self)@.write(index as int, value),
    {
        if index >= TIMER_ADDR_START && index <= TIMER_ADDR_END {
            self.memory_registers[index - TIMER_ADDR_START] = value;
        }
    }

    /// Feeds the cycles of one instruction to the timer. Returns whether TIMA
    /// overflowed, which is a request for the timer interrupt.
    pub fn update_timers(&mut self, cycles_elasped: u8) -> (interrupt_request: bool)
        ensures
            final(self)@ == old(self)@.advance(cycles_elasped),
            interrupt_request == old(self)@.overflows(cycles_elasped),
    {
        self.update_source = self.update_source.wrapping_add(cycles_elasped);
        let mut interrupt_request = false;

        if self.update_source >= CYCLES_PER_TICK {
            self.source_timer = self.source_timer.wrapping_add(1);
            self.update_source -= CYCLES_PER_TICK;

            self.div_prescaler = self.div_prescaler.wrapping_add(1);
            if self.div_prescaler == TICKS_PER_DIV {
                self.memory_registers[DIV] = self.memory_registers[DIV].wrapping_add(1);
                self.div_prescaler = 0;
            }
            if self.memory_registers[TAC] & 0x4 > 0 {
                let counter_threshold: u8 = match self.memory_registers[TAC] & 0x3 {
                    0 => 64u8,
                    1 => 1u8,
                    2 => 4u8,
                    3 => 16u8,
                    _ => 0u8,
                };

                if self.source_timer >= counter_threshold {
                    self.source_timer = 0;
                    if self.memory_registers[TIMA] == 255 {
                        self.memory_registers[TIMA] = self.memory_registers[TMA];
                        interrupt_request = true;
                    } else {
                        self.memory_registers[TIMA] = self.memory_registers[TIMA].wrapping_add(1);
                    }
                }
            }
        }
        interrupt_request
    }
}

} // verus!
