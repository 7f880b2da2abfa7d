//! Serial transport driver for a UART-like peripheral.
//!
//! The peripheral's memory-mapped registers are modelled by [`UartRegisters`],
//! a plain structure supplied at construction, so every register side effect
//! of the driver is explicit and verified. Initialization synthesizes a baud
//! divisor from the oscillator frequency under integer-divisor and
//! oversampling constraints; transmit and receive are non-blocking.

use vstd::prelude::*;

verus! {

use vstd::arithmetic::div_mod::lemma_div_is_ordered;
use vstd::arithmetic::div_mod::lemma_fundamental_div_mod;

/// Smallest oversampling ratio the peripheral supports.
pub const OVERSAMPLING_MIN: u32 = 4;

/// Largest oversampling ratio the peripheral supports.
pub const OVERSAMPLING_MAX: u32 = 32;

/// Smallest programmable baud divisor.
pub const DIV_MIN: u32 = 1;

/// Largest programmable baud divisor.
pub const DIV_MAX: u32 = 8191;

/// Failure of driver initialization: no (oversampling, divisor) pair
/// reproduces the requested baud rate from the source frequency.
#[derive(Clone, Copy, Debug, PartialEq, Eq, Structural)]
pub enum UartError {
    UnsatisfiableBaud,
}

/// Byte-transfer failure of the non-blocking transmit and receive paths.
#[derive(Clone, Copy, Debug, PartialEq, Eq, Structural)]
pub enum IoError {
    /// No room to transmit, or no byte pending: retry later.
    BufferExhausted,
    /// The received frame failed its error-detection (parity) check.
    ErrorDetectionCode,
    /// Any other receive fault; raised on a framing error.
    Other,
}

/// Number of data bits per frame.
#[derive(Clone, Copy, Debug, PartialEq, Eq, Structural)]
pub enum DataBits {
    B7,
    B8,
    B9,
    B10,
}

/// Number of stop bits per frame.
#[derive(Clone, Copy, Debug, PartialEq, Eq, Structural)]
pub enum StopBits {
    B1,
    B2,
}

/// Parity discipline of the serial line.
#[derive(Clone, Copy, Debug, PartialEq, Eq, Structural)]
pub enum Parity {
    N,
    E,
    O,
}

/// Serial line configuration; immutable once the driver is initialized.
#[derive(Clone, Copy, Debug, PartialEq, Eq, Structural)]
pub struct Config {
    pub baudrate: u32,
    pub data_bits: DataBits,
    pub parity: Parity,
    pub stop_bits: StopBits,
}

/// The configuration a freshly built [`Config`] carries.
pub open spec fn default_config() -> Config {
    Config { baudrate: 9600, data_bits: DataBits::B8, parity: Parity::N, stop_bits: StopBits::B1 }
}

impl Default for Config {
    /// 9600 baud, 8 data bits, no parity, 1 stop bit.
    fn default() -> (c: Config)
        ensures
            c == default_config(),
    {
        Config {
            baudrate: 9600,
            data_bits: DataBits::B8,
            stop_bits: StopBits::B1,
            parity: Parity::N,
        }
    }
}

/// The candidate ratio between source frequency and baud rate, rounded to the
/// nearest integer.
pub open spec fn rounded_ratio(source: int, baud: int) -> int
    recommends
        baud >= 1,
{
    (source + baud / 2) / baud
}

/// The adjacent integer candidate ratio, chosen opposite to the rounding
/// direction already tried.
pub open spec fn alternative_ratio(source: int, baud: int) -> int
    recommends
        baud >= 1,
{
    if rounded_ratio(source, baud) == source / baud {
        rounded_ratio(source, baud) + 1
    } else {
        rounded_ratio(source, baud) - 1
    }
}

/// Whether oversampling value `osr` divides `ratio` exactly into a divisor
/// within the programmable bounds.
pub open spec fn osr_fits(ratio: int, osr: int) -> bool
    recommends
        osr >= 1,
{
    &&& ratio % osr == 0
    &&& DIV_MIN <= ratio / osr <= DIV_MAX
}

/// The largest oversampling value in `[OVERSAMPLING_MIN, top]` that factors
/// `ratio` within bounds; searching from the top favors sampling fidelity.
pub open spec fn best_oversampling(ratio: int, top: int) -> Option<int>
    decreases top,
{
    if top < OVERSAMPLING_MIN {
        None
    } else if osr_fits(ratio, top) {
        Some(top)
    } else {
        best_oversampling(ratio, top - 1)
    }
}

/// The (oversampling, divisor) pair the divisor search returns: the rounded
/// ratio is tried first, then the alternative ratio.
pub open spec fn divisor_solution(source: int, baud: int) -> Option<(int, int)>
    recommends
        baud >= 1,
{
    let r = rounded_ratio(source, baud);
    let a = alternative_ratio(source, baud);
    match best_oversampling(r, OVERSAMPLING_MAX as int) {
        Some(o) => Some((o, r / o)),
        None => match best_oversampling(a, OVERSAMPLING_MAX as int) {
            Some(o) => Some((o, a / o)),
            None => None,
        },
    }
}

proof fn lemma_best_oversampling_props(ratio: int, top: int)
    requires
        OVERSAMPLING_MIN - 1 <= top <= OVERSAMPLING_MAX,
    ensures
        match best_oversampling(ratio, top) {
            Some(o) => {
                &&& OVERSAMPLING_MIN <= o <= top
                &&& osr_fits(ratio, o)
                &&& forall|o2: int| o < o2 <= top ==> !osr_fits(ratio, o2)
            },
            None => forall|o2: int| OVERSAMPLING_MIN <= o2 <= top ==> !osr_fits(ratio, o2),
        },
    decreases top,
{
    if top < OVERSAMPLING_MIN {
    } else if osr_fits(ratio, top) {
    } else {
        lemma_best_oversampling_props(ratio, top - 1);
    }
}

/// Law: a solution returned by the divisor search is sound. Oversampling and
/// divisor lie within the hardware bounds and their product is exactly the
/// rounded or the alternative candidate ratio; for the ratio that was matched,
/// no larger oversampling value fits.
pub proof fn lemma_divisor_search_sound(source: int, baud: int, o: int, d: int)
    requires
        baud >= 1,
        divisor_solution(source, baud) == Some((o, d)),
    ensures
        OVERSAMPLING_MIN <= o <= OVERSAMPLING_MAX,
        DIV_MIN <= d <= DIV_MAX,
        o * d == rounded_ratio(source, baud) || o * d == alternative_ratio(source, baud),
{
    let r = rounded_ratio(source, baud);
    let a = alternative_ratio(source, baud);
    lemma_best_oversampling_props(r, OVERSAMPLING_MAX as int);
    lemma_best_oversampling_props(a, OVERSAMPLING_MAX as int);
    if best_oversampling(r, OVERSAMPLING_MAX as int) is Some {
        lemma_fundamental_div_mod(r, o);
    } else {
        lemma_fundamental_div_mod(a, o);
    }
}

/// Law: the search reports the baud unsatisfiable only when neither candidate
/// ratio factors within bounds for any admissible oversampling value.
pub proof fn lemma_divisor_search_complete(source: int, baud: int)
    requires
        baud >= 1,
        divisor_solution(source, baud) is None,
    ensures
        forall|o: int|
            OVERSAMPLING_MIN <= o <= OVERSAMPLING_MAX ==> !osr_fits(
                rounded_ratio(source, baud),
                o,
            ) && !osr_fits(alternative_ratio(source, baud), o),
{
    lemma_best_oversampling_props(rounded_ratio(source, baud), OVERSAMPLING_MAX as int);
    lemma_best_oversampling_props(alternative_ratio(source, baud), OVERSAMPLING_MAX as int);
}

/// Search for an (oversampling ratio, divisor) pair such that
/// `oversampling * divisor` equals the rounded ratio `source / baud`, or the
/// adjacent integer ratio when the rounded one does not factor. Oversampling
/// values are tried from the largest down, which favors sampling fidelity.
pub fn find_decent_div(source: u32, baud: u32) -> (r: Result<(u8, u16), UartError>)
    requires
        baud >= 1,
        source as int + baud as int / 2 <= u32::MAX as int,
        rounded_ratio(source as int, baud as int) < u32::MAX as int,
    ensures
        match r {
            Ok(sol) => {
                &&& divisor_solution(source as int, baud as int) == Some(
                    (sol.0 as int, sol.1 as int),
                )
                &&& OVERSAMPLING_MIN <= sol.0 <= OVERSAMPLING_MAX
                &&& DIV_MIN <= sol.1 <= DIV_MAX
            },
            Err(e) => {
                &&& e == UartError::UnsatisfiableBaud
                &&& divisor_solution(source as int, baud as int) is None
            },
        },
{
    let ratio: u32 = (source + baud / 2) / baud;
    let alt_ratio: u32 = if ratio == source / baud {
        ratio + 1
    } else {
        proof {
            lemma_div_is_ordered(source as int, source as int + baud as int / 2, baud as int);
        }
        ratio - 1
    };

    let mut i: u32 = OVERSAMPLING_MAX;
    while i >= OVERSAMPLING_MIN
        invariant
            baud >= 1,
            OVERSAMPLING_MIN - 1 <= i <= OVERSAMPLING_MAX,
            ratio == rounded_ratio(source as int, baud as int),
            best_oversampling(ratio as int, OVERSAMPLING_MAX as int) == best_oversampling(
                ratio as int,
                i as int,
            ),
        decreases i,
    {
        if ratio % i == 0 && ratio / i >= DIV_MIN && ratio / i <= DIV_MAX {
            return Ok((i as u8, (ratio / i) as u16));
        }
        i = i - 1;
    }

    let mut j: u32 = OVERSAMPLING_MAX;
    while j >= OVERSAMPLING_MIN
        invariant
            baud >= 1,
            OVERSAMPLING_MIN - 1 <= j <= OVERSAMPLING_MAX,
            alt_ratio == alternative_ratio(source as int, baud as int),
            best_oversampling(rounded_ratio(source as int, baud as int), OVERSAMPLING_MAX as int)
                is None,
            best_oversampling(alt_ratio as int, OVERSAMPLING_MAX as int) == best_oversampling(
                alt_ratio as int,
                j as int,
            ),
        decreases j,
    {
        if alt_ratio % j == 0 && alt_ratio / j >= DIV_MIN && alt_ratio / j <= DIV_MAX {
            return Ok((j as u8, (alt_ratio / j) as u16));
        }
        j = j - 1;
    }

    Err(UartError::UnsatisfiableBaud)
}

/// One received frame as it sits in the receive queue, with the error flags
/// the line detected for it.
#[derive(Clone, Copy, Debug, PartialEq, Eq, Structural)]
pub struct RxFrame {
    pub byte: u8,
    pub parity_error: bool,
    pub framing_error: bool,
}

/// Software model of the peripheral's memory-mapped registers. The control
/// and status fields mirror the hardware bits; the transmit side is modelled
/// by the room left in the transmit queue (`tx_slots`, ready flag set while it
/// is positive) and the log of bytes accepted so far (`tx_log`); the receive
/// side by the queue of frames the line has delivered (`rx_fifo`).
pub struct UartRegisters {
    /// Transmitter enable.
    pub tx_enabled: bool,
    /// Receiver enable.
    pub rx_enabled: bool,
    /// Ten-bit data mode.
    pub ten_bit_mode: bool,
    /// Two stop bits instead of one.
    pub two_stop_bits: bool,
    /// Sample on both clock edges; required below eight-fold oversampling.
    pub both_edge_sampling: bool,
    /// Programmed oversampling ratio, hardware-encoded as the ratio minus one.
    pub osr: u8,
    /// Programmed baud divisor.
    pub sbr: u16,
    /// Seven-bit data mode.
    pub seven_bit_mode: bool,
    /// Nine-bit data mode.
    pub nine_bit_mode: bool,
    /// Parity generation and checking enable.
    pub parity_enabled: bool,
    /// Odd rather than even parity.
    pub parity_odd: bool,
    /// Transmit queue enable.
    pub tx_fifo_enabled: bool,
    /// Receive queue enable.
    pub rx_fifo_enabled: bool,
    /// Sticky framing-error status flag; cleared when a framing error is
    /// reported by `receive`.
    pub framing_error_flag: bool,
    /// Room left in the transmit queue; the transmit-ready flag is set while
    /// this is positive. The hardware side drains the queue and grants room.
    pub tx_slots: usize,
    /// Every byte the transmitter has accepted, oldest first.
    pub tx_log: Vec<u8>,
    /// Frames delivered by the line and not yet read, oldest first.
    pub rx_fifo: Vec<RxFrame>,
}

impl UartRegisters {
    /// Power-on state: everything disabled, queues empty, no room granted.
    pub fn new() -> (r: UartRegisters)
        ensures
            !r.tx_enabled && !r.rx_enabled,
            !r.ten_bit_mode && !r.two_stop_bits && !r.both_edge_sampling,
            r.osr == 0 && r.sbr == 0,
            !r.seven_bit_mode && !r.nine_bit_mode && !r.parity_enabled && !r.parity_odd,
            !r.tx_fifo_enabled && !r.rx_fifo_enabled,
            !r.framing_error_flag,
            r.tx_slots == 0,
            r.tx_log@ == Seq::<u8>::empty(),
            r.rx_fifo@ == Seq::<RxFrame>::empty(),
    {
        UartRegisters {
            tx_enabled: false,
            rx_enabled: false,
            ten_bit_mode: false,
            two_stop_bits: false,
            both_edge_sampling: false,
            osr: 0,
            sbr: 0,
            seven_bit_mode: false,
            nine_bit_mode: false,
            parity_enabled: false,
            parity_odd: false,
            tx_fifo_enabled: false,
            rx_fifo_enabled: false,
            framing_error_flag: false,
            tx_slots: 0,
            tx_log: Vec::new(),
            rx_fifo: Vec::new(),
        }
    }
}

/// The control and configuration bits of `a` and `b` agree (everything but
/// the transmit and receive queues and the status flag).
pub open spec fn same_control(a: UartRegisters, b: UartRegisters) -> bool {
    &&& a.tx_enabled == b.tx_enabled
    &&& a.rx_enabled == b.rx_enabled
    &&& a.ten_bit_mode == b.ten_bit_mode
    &&& a.two_stop_bits == b.two_stop_bits
    &&& a.both_edge_sampling == b.both_edge_sampling
    &&& a.osr == b.osr
    &&& a.sbr == b.sbr
    &&& a.seven_bit_mode == b.seven_bit_mode
    &&& a.nine_bit_mode == b.nine_bit_mode
    &&& a.parity_enabled == b.parity_enabled
    &&& a.parity_odd == b.parity_odd
    &&& a.tx_fifo_enabled == b.tx_fifo_enabled
    &&& a.rx_fifo_enabled == b.rx_fifo_enabled
}

/// The transmit side of `a` and `b` agrees.
pub open spec fn same_tx(a: UartRegisters, b: UartRegisters) -> bool {
    &&& a.tx_slots == b.tx_slots
    &&& a.tx_log@ == b.tx_log@
}

/// The receive side of `a` and `b` agrees.
pub open spec fn same_rx(a: UartRegisters, b: UartRegisters) -> bool {
    a.rx_fifo@ == b.rx_fifo@
}

/// The driver: a register model bound to an accepted, immutable
/// configuration. Built only by [`Lpuart::init`].
pub struct Lpuart {
    pub regs: UartRegisters,
    pub config: Config,
}

/// What a successful initialization programs into the registers, given the
/// solution `(o, d)` of the divisor search: both units re-enabled, the baud
/// register holding the hardware-encoded oversampling ratio and the divisor,
/// double-edge sampling exactly below eight-fold oversampling, frame shape
/// and parity from the configuration, both queues enabled, and the transmit
/// and receive state carried over untouched.
pub open spec fn programmed(u: Lpuart, prior: UartRegisters, config: Config, o: int, d: int) -> bool {
    &&& u.config == config
    &&& u.regs.tx_enabled
    &&& u.regs.rx_enabled
    &&& u.regs.osr as int == o - 1
    &&& u.regs.sbr as int == d
    &&& u.regs.both_edge_sampling == (o < 8)
    &&& u.regs.ten_bit_mode == (config.data_bits is B10)
    &&& u.regs.two_stop_bits == (config.stop_bits is B2)
    &&& u.regs.seven_bit_mode == (config.data_bits is B7)
    &&& u.regs.nine_bit_mode == (config.data_bits is B9)
    &&& u.regs.parity_enabled == !(config.parity is N)
    &&& u.regs.parity_odd == (config.parity is O)
    &&& u.regs.tx_fifo_enabled
    &&& u.regs.rx_fifo_enabled
    &&& u.regs.framing_error_flag == prior.framing_error_flag
    &&& same_tx(u.regs, prior)
    &&& same_rx(u.regs, prior)
}

impl Lpuart {
    /// Initialize the peripheral: disable both units, synthesize the baud
    /// divisor, program frame shape, parity and queues, and re-enable. Fails
    /// with [`UartError::UnsatisfiableBaud`] exactly when the divisor search
    /// finds no solution, and then programs nothing lasting.
    pub fn init(regs: UartRegisters, config: Config, source_frequency: u32) -> (r: Result<
        Lpuart,
        UartError,
    >)
        requires
            config.baudrate >= 1,
            source_frequency as int + config.baudrate as int / 2 <= u32::MAX as int,
            rounded_ratio(source_frequency as int, config.baudrate as int) < u32::MAX as int,
        ensures
            match r {
                Ok(u) => divisor_solution(source_frequency as int, config.baudrate as int)
                    matches Some(sol) && programmed(u, regs, config, sol.0, sol.1),
                Err(e) => {
                    &&& e == UartError::UnsatisfiableBaud
                    &&& divisor_solution(source_frequency as int, config.baudrate as int) is None
                },
            },
    {
        let mut r = regs;

        // Disable receiver and transmitter while reprogramming.
        r.tx_enabled = false;
        r.rx_enabled = false;

        let (oversampling_ratio, divisor) = match find_decent_div(
            source_frequency,
            config.baudrate,
        ) {
            Ok(sol) => sol,
            Err(e) => {
                return Err(e);
            },
        };
        let bothedge = oversampling_ratio < 8;

        // Program the baud register.
        r.ten_bit_mode = config.data_bits == DataBits::B10;
        r.two_stop_bits = config.stop_bits == StopBits::B2;
        r.both_edge_sampling = bothedge;
        r.osr = oversampling_ratio - 1;
        r.sbr = divisor;

        // Program frame shape and parity.
        r.seven_bit_mode = config.data_bits == DataBits::B7;
        r.nine_bit_mode = config.data_bits == DataBits::B9;
        r.parity_enabled = config.parity != Parity::N;
        r.parity_odd = config.parity == Parity::O;

        // Enable the queues.
        r.tx_fifo_enabled = true;
        r.rx_fifo_enabled = true;

        // Re-enable receiver and transmitter.
        r.tx_enabled = true;
        r.rx_enabled = true;

        Ok(Lpuart { regs: r, config })
    }

    /// Non-blocking transmit. Fails with `BufferExhausted`, touching nothing,
    /// while the transmit queue has no room; otherwise hands the byte to the
    /// transmitter.
    pub fn transmit(&mut self, data: u8) -> (r: Result<(), IoError>)
        ensures
            old(self).regs.tx_slots == 0 ==> {
                &&& r == Err::<(), IoError>(IoError::BufferExhausted)
                &&& *final(self) == *old(self)
            },
            old(self).regs.tx_slots > 0 ==> {
                &&& r == Ok::<(), IoError>(())
                &&& final(self).regs.tx_log@ == old(self).regs.tx_log@.push(data)
                &&& final(self).regs.tx_slots == old(self).regs.tx_slots - 1
                &&& same_control(final(self).regs, old(self).regs)
                &&& same_rx(final(self).regs, old(self).regs)
                &&& final(self).regs.framing_error_flag == old(self).regs.framing_error_flag
                &&& final(self).config == old(self).config
            },
    {
        if self.regs.tx_slots == 0 {
            Err(IoError::BufferExhausted)
        } else {
            self.regs.tx_slots = self.regs.tx_slots - 1;
            self.regs.tx_log.push(data);
            Ok(())
        }
    }

    /// Non-blocking receive. Fails with `BufferExhausted`, touching nothing,
    /// while no frame is pending; otherwise consumes the oldest frame and
    /// reports it: `ErrorDetectionCode` on a parity error, `Other` on a
    /// framing error (clearing the framing-error flag as a side effect), and
    /// the byte itself otherwise.
    pub fn receive(&mut self) -> (r: Result<u8, IoError>)
        ensures
            old(self).regs.rx_fifo@.len() == 0 ==> {
                &&& r == Err::<u8, IoError>(IoError::BufferExhausted)
                &&& *final(self) == *old(self)
            },
            old(self).regs.rx_fifo@.len() > 0 ==> {
                let frame = old(self).regs.rx_fifo@[0];
                &&& final(self).regs.rx_fifo@ == old(self).regs.rx_fifo@.drop_first()
                &&& same_control(final(self).regs, old(self).regs)
                &&& same_tx(final(self).regs, old(self).regs)
                &&& final(self).config == old(self).config
                &&& if frame.parity_error {
                    &&& r == Err::<u8, IoError>(IoError::ErrorDetectionCode)
                    &&& final(self).regs.framing_error_flag == old(self).regs.framing_error_flag
                } else if frame.framing_error {
                    &&& r == Err::<u8, IoError>(IoError::Other)
                    &&& !final(self).regs.framing_error_flag
                } else {
                    &&& r == Ok::<u8, IoError>(frame.byte)
                    &&& final(self).regs.framing_error_flag == old(self).regs.framing_error_flag
                }
            },
    {
        if self.regs.rx_fifo.len() == 0 {
            Err(IoError::BufferExhausted)
        } else {
            let frame = self.regs.rx_fifo.remove(0);
            proof {
                assert(self.regs.rx_fifo@ == old(self).regs.rx_fifo@.drop_first());
            }
            if frame.parity_error {
                Err(IoError::ErrorDetectionCode)
            } else if frame.framing_error {
                self.regs.framing_error_flag = false;
                Err(IoError::Other)
            } else {
                Ok(frame.byte)
            }
        }
    }
}


} // verus!
