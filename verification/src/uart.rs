use vstd::prelude::*;

verus! {

/// Receive errors that the USART reports with a received character.
#[derive(Clone, Copy, Debug, PartialEq, Eq, Structural)]
pub enum SerialError {
    /// The character arrived without its stop bit.
    Framing,
    /// Noise was detected while receiving the character.
    Noise,
    /// The receive FIFO overflowed.
    Overrun,
    /// The character failed its parity check.
    Parity,
}

/// Bit `n` of `word` is set.
pub open spec fn bit(word: u32, n: u32) -> bool {
    (word >> n) & 1u32 == 1u32
}

/// FIFOSTAT bit 1: a receive FIFO error (overrun) is latched.
pub open spec fn fifostat_rxerr(fifostat: u32) -> bool {
    bit(fifostat, 1)
}

/// FIFOSTAT bit 5: the transmit FIFO has room for another character.
pub open spec fn fifostat_txnotfull(fifostat: u32) -> bool {
    bit(fifostat, 5)
}

/// FIFOSTAT bit 6: the receive FIFO holds at least one character.
pub open spec fn fifostat_rxnotempty(fifostat: u32) -> bool {
    bit(fifostat, 6)
}

/// FIFORD bit 13: framing error of the character read.
pub open spec fn fiford_framerr(fiford: u32) -> bool {
    bit(fiford, 13)
}

/// FIFORD bit 14: parity error of the character read.
pub open spec fn fiford_parityerr(fiford: u32) -> bool {
    bit(fiford, 14)
}

/// FIFORD bit 15: noise was detected on the character read.
pub open spec fn fiford_rxnoise(fiford: u32) -> bool {
    bit(fiford, 15)
}

/// The received character: the low byte of FIFORD's data field.
pub open spec fn fiford_byte(fiford: u32) -> u8 {
    (fiford % 256) as u8
}

fn bit_is_set(word: u32, n: u32) -> (b: bool)
    requires
        n < 32,
    ensures
        b == bit(word, n),
{
    (word >> n) & 1 == 1
}

/// Whether a character can be handed to the transmitter (FIFOSTAT read before each write).
pub fn tx_ready(fifostat: u32) -> (ready: bool)
    ensures
        ready == fifostat_txnotfull(fifostat),
{
    bit_is_set(fifostat, 5)
}

/// Whether the receive FIFO holds a character, i.e. whether `try_read` pops FIFORD.
pub fn rx_ready(fifostat: u32) -> (ready: bool)
    ensures
        ready == fifostat_rxnotempty(fifostat),
{
    bit_is_set(fifostat, 6)
}

/// What one receive poll yields, given FIFOSTAT and (when the FIFO was not empty) the FIFORD
/// word popped after it.
pub open spec fn spec_try_read(fifostat: u32, fiford: u32) -> Result<Option<u8>, SerialError> {
    if !fifostat_rxnotempty(fifostat) {
        Ok(None)
    } else if fiford_framerr(fiford) {
        Err(SerialError::Framing)
    } else if fiford_parityerr(fiford) {
        Err(SerialError::Parity)
    } else if fiford_rxnoise(fiford) {
        Err(SerialError::Noise)
    } else if fifostat_rxerr(fifostat) {
        Err(SerialError::Overrun)
    } else {
        Ok(Some(fiford_byte(fiford)))
    }
}

/// Decodes one receive poll: nothing when the receive FIFO is empty; otherwise the first of
/// the framing, parity and noise errors flagged in FIFORD, then an overrun latched in
/// FIFOSTAT, and else the received byte. On `Err(Overrun)` the caller empties the receive
/// FIFO and clears the latched error, as the board driver does. When the FIFO is empty,
/// `fiford` is not read and its value does not matter.
pub fn try_read(fifostat: u32, fiford: u32) -> (r: Result<Option<u8>, SerialError>)
    ensures
        r == spec_try_read(fifostat, fiford),
{
    if !rx_ready(fifostat) {
        return Ok(None);
    }
    if bit_is_set(fiford, 13) {
        return Err(SerialError::Framing);
    }
    if bit_is_set(fiford, 14) {
        return Err(SerialError::Parity);
    }
    if bit_is_set(fiford, 15) {
        return Err(SerialError::Noise);
    }
    if bit_is_set(fifostat, 1) {
        return Err(SerialError::Overrun);
    }
    let data: u32 = fiford & 0xff;
    assert(fiford & 0xff == fiford % 256) by (bit_vector);
    Ok(Some(data as u8))
}

/// The bytes that `write_line` hands to the transmitter: the line, then CR LF.
pub fn write_line(line: &[u8]) -> (frame: Vec<u8>)
    ensures
        frame@ == line@ + seq![13u8, 10u8],
{
    let mut frame: Vec<u8> = Vec::new();
    crate::text::append_bytes(&mut frame, line);
    frame.push(13);
    frame.push(10);
    frame
}

/// How a receive poll is decoded, stated over the register masks: an empty receive FIFO
/// yields nothing; otherwise a framing error (FIFORD bit 13) is reported whatever else is
/// set, then a parity error (bit 14), then noise (bit 15), then an overrun latched in
/// FIFOSTAT (bit 1); a byte is delivered only when none of these is set, and it is the low
/// byte of FIFORD.
pub proof fn lemma_try_read_decoding(fifostat: u32, fiford: u32)
    ensures
        fifostat & 0x40 == 0 ==> spec_try_read(fifostat, fiford) == Ok::<Option<u8>, SerialError>(None),
        fifostat & 0x40 != 0 && fiford & 0x2000 != 0 ==> spec_try_read(fifostat, fiford) == Err::<Option<u8>, SerialError>(SerialError::Framing),
        fifostat & 0x40 != 0 && fiford & 0x2000 == 0 && fiford & 0x4000 != 0 ==> spec_try_read(fifostat, fiford) == Err::<Option<u8>, SerialError>(SerialError::Parity),
        fifostat & 0x40 != 0 && fiford & 0x6000 == 0 && fiford & 0x8000 != 0 ==> spec_try_read(fifostat, fiford) == Err::<Option<u8>, SerialError>(SerialError::Noise),
        fifostat & 0x40 != 0 && fiford & 0xE000 == 0 && fifostat & 0x2 != 0 ==> spec_try_read(fifostat, fiford) == Err::<Option<u8>, SerialError>(SerialError::Overrun),
        spec_try_read(fifostat, fiford) matches Ok(Some(b)) ==> {
            &&& fifostat & 0x42 == 0x40
            &&& fiford & 0xE000 == 0
            &&& b as u32 == fiford & 0xff
        },
        (spec_try_read(fifostat, fiford) is Ok) <==> (fifostat & 0x40 == 0 || (fiford & 0xE000 == 0 && fifostat & 0x2 == 0)),
{
    assert(((fifostat >> 6u32) & 1u32 == 1u32) <==> (fifostat & 0x40 != 0)) by (bit_vector);
    assert(((fifostat >> 1u32) & 1u32 == 1u32) <==> (fifostat & 0x2 != 0)) by (bit_vector);
    assert(((fiford >> 13u32) & 1u32 == 1u32) <==> (fiford & 0x2000 != 0)) by (bit_vector);
    assert(((fiford >> 14u32) & 1u32 == 1u32) <==> (fiford & 0x4000 != 0)) by (bit_vector);
    assert(((fiford >> 15u32) & 1u32 == 1u32) <==> (fiford & 0x8000 != 0)) by (bit_vector);
    assert((fiford & 0x6000 == 0) <==> (fiford & 0x2000 == 0 && fiford & 0x4000 == 0)) by (bit_vector);
    assert((fiford & 0xE000 == 0) <==> (fiford & 0x2000 == 0 && fiford & 0x4000 == 0 && fiford & 0x8000 == 0)) by (bit_vector);
    assert((fifostat & 0x42 == 0x40) <==> (fifostat & 0x40 != 0 && fifostat & 0x2 == 0)) by (bit_vector);
    assert(fiford & 0xff == fiford % 256) by (bit_vector);
}

} // verus!
