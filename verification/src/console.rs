//! Stream console adapter: a byte-stream read/write surface layered on the
//! serial transport driver.
//!
//! `write` pushes bytes until the transmitter runs out of room and reports the
//! count written so far as a partial success. `read_until` polls the receiver,
//! busy-waiting through `BufferExhausted`, until the terminator byte arrives
//! or the buffer fills; any other receive failure aborts the call, leaving the
//! bytes already placed in the buffer.

use vstd::prelude::*;

verus! {

use crate::lpuart::Config;
use crate::lpuart::DataBits;
use crate::lpuart::IoError;
use crate::lpuart::Lpuart;
use crate::lpuart::Parity;
use crate::lpuart::RxFrame;
use crate::lpuart::StopBits;
use crate::lpuart::UartRegisters;
use crate::lpuart::divisor_solution;
use crate::lpuart::programmed;
use crate::lpuart::same_control;
use crate::lpuart::same_rx;
use crate::lpuart::same_tx;

/// Oscillator frequency feeding the console's peripheral.
pub const CONSOLE_SOURCE_FREQUENCY: u32 = 8_000_000;

/// Fixed operational baud rate of the console transport.
pub const CONSOLE_BAUDRATE: u32 = 115_200;

/// The console's fixed operational configuration: 115200 baud, 8 data bits,
/// no parity, 1 stop bit.
pub open spec fn console_config() -> Config {
    Config {
        baudrate: CONSOLE_BAUDRATE,
        data_bits: DataBits::B8,
        parity: Parity::N,
        stop_bits: StopBits::B1,
    }
}

/// What one `read_until` call does, computed over the pending receive queue:
/// the bytes written into the buffer, and how the call ends.
pub enum ReadOutcome {
    /// The call returns the number of bytes written: the terminator was seen
    /// (and written last), or the buffer filled first.
    Completed { written: Seq<u8> },
    /// A receive fault ends the call with `err` after `written` was placed;
    /// the faulting frame is consumed but written nowhere.
    Failed { written: Seq<u8>, err: IoError },
    /// The queue runs dry before the call can end: the adapter busy-waits for
    /// more input and, in this model, never returns.
    Starved,
}

/// Prefix `w` onto the bytes an outcome writes.
pub open spec fn prepend_written(w: Seq<u8>, o: ReadOutcome) -> ReadOutcome {
    match o {
        ReadOutcome::Completed { written } => ReadOutcome::Completed { written: w + written },
        ReadOutcome::Failed { written, err } => ReadOutcome::Failed { written: w + written, err },
        ReadOutcome::Starved => ReadOutcome::Starved,
    }
}

/// The outcome of `read_until` over queue `fifo` with `room` buffer bytes
/// free, looking for terminator `term`.
pub open spec fn read_outcome(fifo: Seq<RxFrame>, term: u8, room: int) -> ReadOutcome
    decreases fifo.len(),
{
    if room <= 0 {
        ReadOutcome::Completed { written: Seq::empty() }
    } else if fifo.len() == 0 {
        ReadOutcome::Starved
    } else {
        let frame = fifo[0];
        if frame.parity_error {
            ReadOutcome::Failed { written: Seq::empty(), err: IoError::ErrorDetectionCode }
        } else if frame.framing_error {
            ReadOutcome::Failed { written: Seq::empty(), err: IoError::Other }
        } else if frame.byte == term {
            ReadOutcome::Completed { written: seq![frame.byte] }
        } else {
            prepend_written(
                seq![frame.byte],
                read_outcome(fifo.drop_first(), term, room - 1),
            )
        }
    }
}

proof fn lemma_prepend_assoc(w1: Seq<u8>, w2: Seq<u8>, o: ReadOutcome)
    ensures
        prepend_written(w1, prepend_written(w2, o)) == prepend_written(w1 + w2, o),
{
    match o {
        ReadOutcome::Completed { written } => {
            assert(w1 + (w2 + written) =~= (w1 + w2) + written);
        },
        ReadOutcome::Failed { written, err } => {
            assert(w1 + (w2 + written) =~= (w1 + w2) + written);
        },
        ReadOutcome::Starved => {},
    }
}

/// Allow usage of the driver as a console.
pub struct LpuartConsole {
    pub lpuart: Lpuart,
}

impl LpuartConsole {
    /// Bring up the console transport at its fixed operational configuration.
    /// The fixed (frequency, baud) pair is proved satisfiable, so this cannot
    /// fail.
    pub fn init(regs: UartRegisters) -> (c: LpuartConsole)
        ensures
            divisor_solution(CONSOLE_SOURCE_FREQUENCY as int, CONSOLE_BAUDRATE as int)
                matches Some(sol) && programmed(c.lpuart, regs, console_config(), sol.0, sol.1),
    {
        let mut uart_config = Config::default();
        uart_config.baudrate = CONSOLE_BAUDRATE;

        proof {
            reveal_with_fuel(crate::lpuart::best_oversampling, 12);
            assert(crate::lpuart::rounded_ratio(
                CONSOLE_SOURCE_FREQUENCY as int,
                CONSOLE_BAUDRATE as int,
            ) == 69);
            assert(crate::lpuart::best_oversampling(69, 32) == Some(23int));
            assert(divisor_solution(CONSOLE_SOURCE_FREQUENCY as int, CONSOLE_BAUDRATE as int)
                is Some);
        }
        let lpuart = Lpuart::init(regs, uart_config, CONSOLE_SOURCE_FREQUENCY).unwrap();
        LpuartConsole { lpuart }
    }

    /// Transmit the bytes of `buf` in order, one at a time. On the first
    /// `BufferExhausted` the count sent so far is returned as a success — a
    /// partial write the caller resubmits; so exactly
    /// `min(buf.len(), tx_slots)` bytes are sent.
    pub fn write(&mut self, buf: &[u8]) -> (r: Result<usize, IoError>)
        ensures
            ({
                let slots = old(self).lpuart.regs.tx_slots as int;
                let k = if buf@.len() <= slots {
                    buf@.len() as int
                } else {
                    slots
                };
                &&& r == Ok::<usize, IoError>(k as usize)
                &&& final(self).lpuart.regs.tx_log@ == old(self).lpuart.regs.tx_log@ + buf@.take(k)
                &&& final(self).lpuart.regs.tx_slots == slots - k
                &&& same_control(final(self).lpuart.regs, old(self).lpuart.regs)
                &&& same_rx(final(self).lpuart.regs, old(self).lpuart.regs)
                &&& final(self).lpuart.regs.framing_error_flag
                    == old(self).lpuart.regs.framing_error_flag
                &&& final(self).lpuart.config == old(self).lpuart.config
            }),
    {
        let mut i: usize = 0;
        while i < buf.len()
            invariant
                i <= buf.len(),
                i <= old(self).lpuart.regs.tx_slots,
                self.lpuart.regs.tx_slots == old(self).lpuart.regs.tx_slots - i,
                self.lpuart.regs.tx_log@ == old(self).lpuart.regs.tx_log@ + buf@.take(i as int),
                same_control(self.lpuart.regs, old(self).lpuart.regs),
                same_rx(self.lpuart.regs, old(self).lpuart.regs),
                self.lpuart.regs.framing_error_flag == old(self).lpuart.regs.framing_error_flag,
                self.lpuart.config == old(self).lpuart.config,
            decreases buf.len() - i,
        {
            match self.lpuart.transmit(buf[i]) {
                Ok(()) => {
                    proof {
                        assert(buf@.take(i as int).push(buf@[i as int]) =~= buf@.take(
                            i as int + 1,
                        ));
                    }
                },
                Err(IoError::BufferExhausted) => {
                    proof {
                        assert(buf@.take(i as int) =~= buf@.take(
                            if buf@.len() <= old(self).lpuart.regs.tx_slots as int {
                                buf@.len() as int
                            } else {
                                old(self).lpuart.regs.tx_slots as int
                            },
                        ));
                    }
                    return Ok(i);
                },
                Err(e) => {
                    return Err(e);
                },
            }
            i = i + 1;
        }
        proof {
            assert(buf@.take(buf@.len() as int) =~= buf@);
        }
        Ok(i)
    }

    /// Poll the receiver into `buf` until the terminator `byte` arrives
    /// (written, and counted in the result) or the buffer fills, whichever
    /// comes first; `BufferExhausted` is busy-waited through, never surfaced.
    /// Any other receive failure ends the call with that error, the bytes
    /// already written staying in place. The queue model is fixed for the
    /// duration of a call, so a call that would busy-wait forever — the queue
    /// running dry before the terminator or a full buffer — is excluded by
    /// precondition.
    pub fn read_until(&mut self, byte: u8, buf: &mut Vec<u8>) -> (r: Result<usize, IoError>)
        requires
            !(read_outcome(old(self).lpuart.regs.rx_fifo@, byte, old(buf)@.len() as int)
                is Starved),
        ensures
            final(buf)@.len() == old(buf)@.len(),
            same_control(final(self).lpuart.regs, old(self).lpuart.regs),
            same_tx(final(self).lpuart.regs, old(self).lpuart.regs),
            final(self).lpuart.config == old(self).lpuart.config,
            ({
                let out = read_outcome(
                    old(self).lpuart.regs.rx_fifo@,
                    byte,
                    old(buf)@.len() as int,
                );
                match out {
                    ReadOutcome::Completed { written } => {
                        &&& r == Ok::<usize, IoError>(written.len() as usize)
                        &&& final(buf)@ == written + old(buf)@.skip(written.len() as int)
                        &&& final(self).lpuart.regs.rx_fifo@ == old(self).lpuart.regs.rx_fifo@.skip(
                            written.len() as int,
                        )
                        &&& final(self).lpuart.regs.framing_error_flag == old(
                            self,
                        ).lpuart.regs.framing_error_flag
                    },
                    ReadOutcome::Failed { written, err } => {
                        &&& r == Err::<usize, IoError>(err)
                        &&& final(buf)@ == written + old(buf)@.skip(written.len() as int)
                        &&& final(self).lpuart.regs.rx_fifo@ == old(self).lpuart.regs.rx_fifo@.skip(
                            written.len() as int + 1,
                        )
                        &&& (err is Other ==> !final(self).lpuart.regs.framing_error_flag)
                        &&& (err is ErrorDetectionCode ==> final(self).lpuart.regs.framing_error_flag
                            == old(self).lpuart.regs.framing_error_flag)
                    },
                    ReadOutcome::Starved => false,
                }
            }),
    {
        let ghost fifo0 = old(self).lpuart.regs.rx_fifo@;
        let ghost n = old(buf)@.len() as int;
        let mut index: usize = 0;
        while index < buf.len()
            invariant
                index <= buf.len(),
                buf@.len() == old(buf)@.len(),
                buf@.skip(index as int) == old(buf)@.skip(index as int),
                fifo0 == old(self).lpuart.regs.rx_fifo@,
                n == old(buf)@.len() as int,
                index <= fifo0.len(),
                self.lpuart.regs.rx_fifo@ == fifo0.skip(index as int),
                read_outcome(fifo0, byte, n) == prepend_written(
                    buf@.take(index as int),
                    read_outcome(self.lpuart.regs.rx_fifo@, byte, n - index),
                ),
                same_control(self.lpuart.regs, old(self).lpuart.regs),
                same_tx(self.lpuart.regs, old(self).lpuart.regs),
                self.lpuart.regs.framing_error_flag == old(self).lpuart.regs.framing_error_flag,
                self.lpuart.config == old(self).lpuart.config,
                !(read_outcome(fifo0, byte, n) is Starved),
            decreases self.lpuart.regs.rx_fifo@.len(),
        {
            let ghost cur = self.lpuart.regs.rx_fifo@;
            let ghost taken = buf@.take(index as int);
            match self.lpuart.receive() {
                Ok(b) => {
                    buf[index] = b;
                    proof {
                        broadcast use vstd::seq_lib::group_seq_properties;

                        assert(buf@.skip(index as int + 1) =~= old(buf)@.skip(index as int + 1));
                        assert(cur.len() == fifo0.len() - index);
                        assert(self.lpuart.regs.rx_fifo@ =~= cur.skip(1));
                        vstd::seq_lib::lemma_seq_skip_of_skip(fifo0, index as int, 1);
                        assert(self.lpuart.regs.rx_fifo@ =~= fifo0.skip(index as int + 1));
                        assert(buf@.take(index as int + 1) =~= taken + seq![b]);
                    }
                    index = index + 1;
                    if b == byte {
                        proof {
                            assert(read_outcome(cur, byte, n - (index - 1))
                                == ReadOutcome::Completed { written: seq![b] });
                            assert(taken + seq![b] =~= buf@.take(index as int));
                            let written = buf@.take(index as int);
                            assert(read_outcome(fifo0, byte, n) == ReadOutcome::Completed {
                                written,
                            });
                            assert(buf@ =~= written + old(buf)@.skip(written.len() as int));
                        }
                        return Ok(index);
                    }
                    proof {
                        lemma_prepend_assoc(
                            taken,
                            seq![b],
                            read_outcome(self.lpuart.regs.rx_fifo@, byte, n - index),
                        );
                    }
                },
                Err(IoError::BufferExhausted) => {
                    // The queue is dry: poll again (busy-wait, no backoff).
                    // Under this call's precondition the queue cannot run dry
                    // here, so the retry is never reached.
                    proof {
                        assert(read_outcome(cur, byte, n - index) is Starved);
                        assert(false);
                    }
                },
                Err(e) => {
                    proof {
                        assert(read_outcome(cur, byte, n - index) matches ReadOutcome::Failed {
                            written, err } && written == Seq::<u8>::empty() && err == e);
                        let written = buf@.take(index as int);
                        assert(read_outcome(fifo0, byte, n) == ReadOutcome::Failed { written, err: e });
                        assert(buf@ =~= written + old(buf)@.skip(written.len() as int));
                        assert(cur.len() == fifo0.len() - index);
                        assert(self.lpuart.regs.rx_fifo@ =~= cur.skip(1));
                        vstd::seq_lib::lemma_seq_skip_of_skip(fifo0, index as int, 1);
                        assert(self.lpuart.regs.rx_fifo@ =~= fifo0.skip(index as int + 1));
                    }
                    return Err(e);
                },
            }
        }
        proof {
            let written = buf@.take(index as int);
            assert(read_outcome(fifo0, byte, n) == ReadOutcome::Completed { written });
            assert(buf@ =~= written + old(buf)@.skip(written.len() as int));
        }
        Ok(index)
    }
}

} // verus!
