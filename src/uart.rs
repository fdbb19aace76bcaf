use vstd::prelude::*;
use vstd::string::*;
use crate::bits::field32;
use crate::registry::Registry;

verus! {

/// Physical base address of the PL011 UART register block.
pub const UART_BASE: u64 = 0x3F20_1000;
/// Byte offsets of the registers used, from the base.
pub const DR_OFFSET: u64 = 0x00;
pub const FR_OFFSET: u64 = 0x18;
pub const IBRD_OFFSET: u64 = 0x24;
pub const FBRD_OFFSET: u64 = 0x28;
pub const LCRH_OFFSET: u64 = 0x2C;
pub const CR_OFFSET: u64 = 0x30;
pub const ICR_OFFSET: u64 = 0x44;

/// Flag register bits.
pub const FR_TXFE: u32 = 7;
pub const FR_TXFF: u32 = 5;
pub const FR_RXFE: u32 = 4;
pub const FR_BUSY: u32 = 3;

/// Line control: eight-bit words (WL = 0b11 at bit 5) with the FIFOs on (FEN, bit 4).
pub const LCRH_8BIT_FIFO: u32 = 0x70;
/// Control: UART, transmitter and receiver enabled (bits 0, 8 and 9), in one write.
pub const CR_ENABLE_ALL: u32 = 0x301;
/// Control with UARTEN clear.
pub const CR_DISABLED: u32 = 0;

/// The UART's reference clock, in Hz.
pub const REFERENCE_CLOCK: u32 = 48_000_000;
/// The line rate, in baud.
pub const BAUD_RATE: u32 = 115_200;

/// One access to the UART block. The two waits spin on the flag register
/// until the named flag reads clear.
#[derive(Clone, Copy, Debug, PartialEq, Eq, Structural)]
pub enum UartOp {
    WaitWhileBusy,
    WaitWhileTxFull,
    WriteCr(u32),
    WriteIcr(u32),
    WriteIbrd(u32),
    WriteFbrd(u32),
    WriteLcrh(u32),
    WriteData(u32),
}

/// Integer baud divisor: the clock over sixteen times the baud rate, truncated.
pub open spec fn ibrd_of(clock: nat, baud: nat) -> nat {
    clock / (16 * baud)
}

/// Fractional baud divisor: the remainder of that division, in 64ths, rounded
/// to nearest (halves up).
pub open spec fn fbrd_of(clock: nat, baud: nat) -> nat {
    ((clock % (16 * baud)) * 128 + 16 * baud) / (2 * (16 * baud))
}

/// The integer and fractional baud divisors for `clock` Hz and `baud` baud.
pub fn baud_divisors(clock: u32, baud: u32) -> (r: (u32, u32))
    requires
        baud > 0,
    ensures
        r.0 as nat == ibrd_of(clock as nat, baud as nat),
        r.1 as nat == fbrd_of(clock as nat, baud as nat),
        r.1 <= 64,
{
    let d: u64 = 16 * (baud as u64);
    let c: u64 = clock as u64;
    let rem: u64 = c % d;
    proof {
        assert(c / d <= c) by (nonlinear_arith)
            requires d > 0;
        assert(rem * 128 + d < 129 * d) by (nonlinear_arith)
            requires rem < d;
        assert((rem * 128 + d) / (2 * d) <= 64) by (nonlinear_arith)
            requires rem < d, d > 0;
    }
    ((c / d) as u32, ((rem * 128 + d) / (2 * d)) as u32)
}

/// The initialisation sequence for the given divisors: drain, disable, clear
/// interrupts, set the divisors, 8-bit words with FIFOs, then enable the
/// receiver, transmitter and UART in one write.
pub open spec fn init_ops(ibrd: u32, fbrd: u32) -> Seq<UartOp> {
    seq![
        UartOp::WaitWhileBusy,
        UartOp::WriteCr(CR_DISABLED),
        UartOp::WriteIcr(0),
        UartOp::WriteIbrd(ibrd),
        UartOp::WriteFbrd(fbrd),
        UartOp::WriteLcrh(LCRH_8BIT_FIFO),
        UartOp::WriteCr(CR_ENABLE_ALL),
    ]
}

/// The low byte of each character.
pub open spec fn low_bytes(s: Seq<char>) -> Seq<u8> {
    s.map_values(|c: char| (c as u32) as u8)
}

/// Sends `bytes` one by one, each after a wait for room in the transmit FIFO.
pub open spec fn tx_ops(bytes: Seq<u8>) -> Seq<UartOp>
    decreases bytes.len(),
{
    if bytes.len() == 0 {
        Seq::empty()
    } else {
        tx_ops(bytes.drop_last()) + seq![
            UartOp::WaitWhileTxFull,
            UartOp::WriteData(bytes.last() as u32),
        ]
    }
}

/// True when the flag register reports a full transmit FIFO.
pub fn transmit_fifo_full(fr: u32) -> (r: bool)
    ensures
        r == (field32(fr, FR_TXFF, 1) == 1),
        field32(fr, FR_TXFF, 1) <= 1,
{
    assert((fr >> 5u32) & 1u32 <= 1) by (bit_vector);
    (fr >> 5u32) & 1u32 == 1
}

/// True when the flag register reports the UART busy shifting out data.
pub fn is_busy(fr: u32) -> (r: bool)
    ensures
        r == (field32(fr, FR_BUSY, 1) == 1),
        field32(fr, FR_BUSY, 1) <= 1,
{
    assert((fr >> 3u32) & 1u32 <= 1) by (bit_vector);
    (fr >> 3u32) & 1u32 == 1
}

/// What `writeln` issues for `s` is what `write` issues for `s`, then the
/// send of exactly one newline byte; for the empty string, only that send.
pub proof fn lemma_writeln_is_write_then_newline(s: Seq<char>)
    ensures
        tx_ops(low_bytes(s).push(10u8)) == tx_ops(low_bytes(s)) + seq![
            UartOp::WaitWhileTxFull,
            UartOp::WriteData(10),
        ],
        s.len() == 0 ==> tx_ops(low_bytes(s).push(10u8)) == seq![
            UartOp::WaitWhileTxFull,
            UartOp::WriteData(10),
        ],
{
    assert(low_bytes(s).push(10u8).drop_last() =~= low_bytes(s));
    if s.len() == 0 {
        assert(low_bytes(s) =~= Seq::<u8>::empty());
        assert(tx_ops(Seq::<u8>::empty()) + seq![UartOp::WaitWhileTxFull, UartOp::WriteData(10)]
            =~= seq![UartOp::WaitWhileTxFull, UartOp::WriteData(10)]);
    }
}

/// At the reference clock and line rate the divisors are 26 and 3
/// (48 MHz / (16 * 115200) = 26.04; 0.04 * 64 rounds to 3).
pub proof fn lemma_reference_divisors()
    ensures
        ibrd_of(REFERENCE_CLOCK as nat, BAUD_RATE as nat) == 26,
        fbrd_of(REFERENCE_CLOCK as nat, BAUD_RATE as nat) == 3,
{
    assert(48_000_000nat / 1_843_200nat == 26) by (nonlinear_arith);
    assert(48_000_000nat % 1_843_200nat == 76_800) by (nonlinear_arith);
    assert(11_673_600nat / 3_686_400nat == 3) by (nonlinear_arith);
}

/// Every data write in `ops` comes right after a wait for FIFO room.
pub open spec fn waits_before_writes(ops: Seq<UartOp>) -> bool {
    forall|i: int|
        0 <= i < ops.len() && #[trigger] ops[i] is WriteData ==> i > 0 && ops[i - 1]
            == UartOp::WaitWhileTxFull
}

/// The values written to the data register by `ops`, in order.
pub open spec fn data_writes(ops: Seq<UartOp>) -> Seq<u32>
    decreases ops.len(),
{
    if ops.len() == 0 {
        Seq::empty()
    } else {
        data_writes(ops.drop_last()) + match ops.last() {
            UartOp::WriteData(v) => seq![v],
            _ => Seq::empty(),
        }
    }
}

/// The number of waits in `ops`.
pub open spec fn wait_count(ops: Seq<UartOp>) -> nat
    decreases ops.len(),
{
    if ops.len() == 0 {
        0
    } else {
        wait_count(ops.drop_last()) + if ops.last() is WaitWhileBusy || ops.last() is WaitWhileTxFull {
            1nat
        } else {
            0nat
        }
    }
}

proof fn lemma_wait_count_prefix(ops: Seq<UartOp>, i: int)
    requires
        0 <= i <= ops.len(),
    ensures
        wait_count(ops.subrange(0, i)) <= wait_count(ops),
    decreases ops.len() - i,
{
    if i < ops.len() {
        lemma_wait_count_prefix(ops, i + 1);
        assert(ops.subrange(0, i + 1).drop_last() =~= ops.subrange(0, i));
    } else {
        assert(ops.subrange(0, i) =~= ops);
    }
}

/// Every sample of `fr_feed` shows a FIFO with room and an idle line.
pub open spec fn quiet_feed(fr_feed: Seq<u32>) -> bool {
    forall|j: int|
        0 <= j < fr_feed.len() ==> field32(#[trigger] fr_feed[j], FR_TXFF, 1) == 0 && field32(
            fr_feed[j],
            FR_BUSY,
            1,
        ) == 0
}

/// A data-register write seen by the simulator: the value, and the index of
/// the flag-register sample that showed room in the FIFO for it.
#[derive(Clone, Copy, Debug, PartialEq, Eq, Structural)]
pub struct TxRecord {
    pub value: u32,
    pub sample: usize,
}

/// Why a simulated run stopped early.
#[derive(Clone, Copy, Debug, PartialEq, Eq, Structural)]
pub enum SimError {
    /// A wait needed more flag-register samples than were scripted.
    FeedExhausted,
    /// A data write came with no sample showing FIFO room since the previous one.
    UnguardedWrite,
}

/// Runs `ops` against a flag register that reads `fr_feed` in turn: each wait
/// consumes samples up to and including the first with its flag clear.
/// Each data write is recorded with the sample that let it through, which
/// shows a non-full FIFO and comes after the sample of the previous write.
pub fn simulate(ops: &Vec<UartOp>, fr_feed: &Vec<u32>) -> (r: Result<Vec<TxRecord>, SimError>)
    ensures
        r matches Ok(w) ==> {
            &&& w@.len() == data_writes(ops@).len()
            &&& forall|k: int|
                #![trigger w@[k]]
                0 <= k < w@.len() ==> {
                    &&& w@[k].value == data_writes(ops@)[k]
                    &&& w@[k].sample < fr_feed@.len()
                    &&& field32(fr_feed@[w@[k].sample as int], FR_TXFF, 1) == 0
                    &&& k > 0 ==> w@[k - 1].sample < w@[k].sample
                }
        },
        waits_before_writes(ops@) ==> r != Err::<Vec<TxRecord>, SimError>(
            SimError::UnguardedWrite,
        ),
        waits_before_writes(ops@) && quiet_feed(fr_feed@) && wait_count(ops@) <= fr_feed@.len()
            ==> r is Ok,
{
    let mut out: Vec<TxRecord> = Vec::new();
    let mut pos: usize = 0;
    let mut room: Option<usize> = None;
    let mut i: usize = 0;
    while i < ops.len()
        invariant
            i <= ops@.len(),
            pos <= fr_feed@.len(),
            out@.len() == data_writes(ops@.subrange(0, i as int)).len(),
            forall|k: int|
                #![trigger out@[k]]
                0 <= k < out@.len() ==> {
                    &&& out@[k].value == data_writes(ops@.subrange(0, i as int))[k]
                    &&& out@[k].sample < pos
                    &&& field32(fr_feed@[out@[k].sample as int], FR_TXFF, 1) == 0
                    &&& k > 0 ==> out@[k - 1].sample < out@[k].sample
                },
            room matches Some(j) ==> {
                &&& j < pos
                &&& field32(fr_feed@[j as int], FR_TXFF, 1) == 0
                &&& out@.len() > 0 ==> out@.last().sample < j
            },
            waits_before_writes(ops@) && i > 0 && ops@[i - 1] == UartOp::WaitWhileTxFull
                ==> room is Some,
            quiet_feed(fr_feed@) ==> pos == wait_count(ops@.subrange(0, i as int)),
        decreases ops@.len() - i,
    {
        assert(ops@.subrange(0, i + 1).drop_last() =~= ops@.subrange(0, i as int));
        proof {
            lemma_wait_count_prefix(ops@, i + 1);
        }
        let ghost pos0 = pos;
        match ops[i] {
            UartOp::WaitWhileTxFull => {
                while pos < fr_feed.len() && transmit_fifo_full(fr_feed[pos])
                    invariant
                        pos <= fr_feed@.len(),
                        forall|k: int| 0 <= k < out@.len() ==> out@[k].sample < pos,
                        quiet_feed(fr_feed@) ==> pos == pos0,
                    decreases fr_feed@.len() - pos,
                {
                    pos = pos + 1;
                }
                if pos == fr_feed.len() {
                    return Err(SimError::FeedExhausted);
                }
                room = Some(pos);
                pos = pos + 1;
            },
            UartOp::WaitWhileBusy => {
                while pos < fr_feed.len() && is_busy(fr_feed[pos])
                    invariant
                        pos <= fr_feed@.len(),
                        forall|k: int| 0 <= k < out@.len() ==> out@[k].sample < pos,
                        quiet_feed(fr_feed@) ==> pos == pos0,
                        room matches Some(j) ==> {
                            &&& j < pos
                            &&& field32(fr_feed@[j as int], FR_TXFF, 1) == 0
                            &&& out@.len() > 0 ==> out@.last().sample < j
                        },
                    decreases fr_feed@.len() - pos,
                {
                    pos = pos + 1;
                }
                if pos == fr_feed.len() {
                    return Err(SimError::FeedExhausted);
                }
                pos = pos + 1;
            },
            UartOp::WriteData(v) => {
                match room {
                    None => {
                        return Err(SimError::UnguardedWrite);
                    },
                    Some(j) => {
                        out.push(TxRecord { value: v, sample: j });
                        room = None;
                    },
                }
            },
            _ => {},
        }
        i = i + 1;
    }
    assert(ops@.subrange(0, ops@.len() as int) =~= ops@);
    Ok(out)
}

/// Exclusive handle on the UART block; `ops` are the accesses issued through
/// it, oldest first.
pub struct Uart {
    pub ops: Vec<UartOp>,
}

impl Uart {
    /// Every data write is issued right after a wait for FIFO room.
    pub open spec fn wf(self) -> bool {
        waits_before_writes(self.ops@)
    }

    /// Hands out the UART block, initialised, on its first acquisition, and
    /// nothing after.
    pub fn take(registry: &mut Registry) -> (r: Option<Uart>)
        ensures
            r is Some <==> !old(registry).uart_taken,
            *final(registry) == old(registry).after_uart_claim(),
            r matches Some(u) ==> u.wf() && u.ops@ == init_ops(26, 3),
    {
        if registry.claim_uart() {
            let mut device = Uart { ops: Vec::new() };
            device.init();
            Some(device)
        } else {
            None
        }
    }

    /// Hands out the UART block, initialised again, without consulting the
    /// registry, for paths (a panic report) that must reach it whatever the
    /// bookkeeping says.
    pub fn steal() -> (r: Uart)
        ensures
            r.wf(),
            r.ops@ == init_ops(26, 3),
    {
        let mut device = Uart { ops: Vec::new() };
        device.init();
        device
    }

    /// Issues the initialisation sequence for the reference clock and baud rate.
    fn init(&mut self)
        requires
            old(self).wf(),
        ensures
            final(self).wf(),
            final(self).ops@ == old(self).ops@ + init_ops(26, 3),
    {
        let (ibrd, fbrd) = baud_divisors(REFERENCE_CLOCK, BAUD_RATE);
        proof {
            lemma_reference_divisors();
        }
        self.flush();
        self.ops.push(UartOp::WriteCr(CR_DISABLED));
        self.ops.push(UartOp::WriteIcr(0));
        self.ops.push(UartOp::WriteIbrd(ibrd));
        self.ops.push(UartOp::WriteFbrd(fbrd));
        self.ops.push(UartOp::WriteLcrh(LCRH_8BIT_FIFO));
        self.ops.push(UartOp::WriteCr(CR_ENABLE_ALL));
        assert(self.ops@ =~= old(self).ops@ + init_ops(26, 3));
    }

    /// Sends one byte once the transmit FIFO has room.
    fn writec(&mut self, c: u8)
        requires
            old(self).wf(),
        ensures
            final(self).wf(),
            final(self).ops@ == old(self).ops@ + seq![
                UartOp::WaitWhileTxFull,
                UartOp::WriteData(c as u32),
            ],
    {
        self.ops.push(UartOp::WaitWhileTxFull);
        self.ops.push(UartOp::WriteData(c as u32));
    }

    /// Sends the low byte of each character of `msg`, in order; characters
    /// beyond one byte are truncated, not encoded.
    pub fn write(&mut self, msg: &str)
        requires
            old(self).wf(),
        ensures
            final(self).wf(),
            final(self).ops@ == old(self).ops@ + tx_ops(low_bytes(msg@)),
    {
        let n = msg.unicode_len();
        let mut i: usize = 0;
        while i < n
            invariant
                n == msg@.len(),
                i <= n,
                self.wf(),
                self.ops@ == old(self).ops@ + tx_ops(low_bytes(msg@.subrange(0, i as int))),
            decreases n - i,
        {
            let c = msg.get_char(i);
            self.writec((c as u32) as u8);
            proof {
                let next = low_bytes(msg@.subrange(0, i + 1));
                assert(next.drop_last() =~= low_bytes(msg@.subrange(0, i as int)));
                assert(next.last() == (c as u32) as u8);
            }
            i = i + 1;
        }
        assert(msg@.subrange(0, n as int) =~= msg@);
    }

    /// Sends `msg` as `write` does, then one newline byte.
    pub fn writeln(&mut self, msg: &str)
        requires
            old(self).wf(),
        ensures
            final(self).wf(),
            final(self).ops@ == old(self).ops@ + tx_ops(low_bytes(msg@).push(10u8)),
    {
        self.write(msg);
        self.writec(10u8);
        proof {
            let b = low_bytes(msg@).push(10u8);
            assert(b.drop_last() =~= low_bytes(msg@));
        }
    }

    /// Waits until the last byte has left the shift register.
    pub fn flush(&mut self)
        requires
            old(self).wf(),
        ensures
            final(self).wf(),
            final(self).ops@ == old(self).ops@.push(UartOp::WaitWhileBusy),
    {
        self.ops.push(UartOp::WaitWhileBusy);
    }
}

} // verus!
