//! Bit layout of the controller's registers, and the facts about it that the
//! driver's contracts rest on.

use vstd::prelude::*;

verus! {

/// Channel enable (EN).
pub const CCR_EN: u32 = 0x0001;
/// Transfer-complete interrupt enable (TCIE).
pub const CCR_TCIE: u32 = 0x0002;
/// Half-transfer interrupt enable (HTIE).
pub const CCR_HTIE: u32 = 0x0004;
/// Transfer-error interrupt enable (TEIE).
pub const CCR_TEIE: u32 = 0x0008;
/// Data transfer direction (DIR).
pub const CCR_DIR: u32 = 0x0010;
/// Circular mode (CIRC).
pub const CCR_CIRC: u32 = 0x0020;
/// Peripheral increment mode (PINC).
pub const CCR_PINC: u32 = 0x0040;
/// Memory increment mode (MINC).
pub const CCR_MINC: u32 = 0x0080;
/// Peripheral element size (PSIZE), two bits.
pub const CCR_PSIZE: u32 = 0x0300;
/// Memory element size (MSIZE), two bits.
pub const CCR_MSIZE: u32 = 0x0c00;
/// Software priority level (PL), two bits.
pub const CCR_PL: u32 = 0x3000;
/// Memory-to-memory mode (MEM2MEM).
pub const CCR_MEM2MEM: u32 = 0x4000;
/// Every bit that arming a channel decides: all of the above but HTIE, TEIE
/// and MEM2MEM.
pub const CCR_ARM_MASK: u32 = 0x3ff3;

/// The control register of one channel, field by field.
pub struct ControlFields {
    pub enabled: bool,
    pub complete_irq: bool,
    pub half_irq: bool,
    pub error_irq: bool,
    pub from_memory: bool,
    pub circular: bool,
    pub periph_incr: bool,
    pub mem_incr: bool,
    pub periph_size: u32,
    pub mem_size: u32,
    pub priority: u32,
    pub mem2mem: bool,
}

/// The fields that a control word holds.
pub open spec fn decode(word: u32) -> ControlFields {
    ControlFields {
        enabled: word & CCR_EN != 0,
        complete_irq: word & CCR_TCIE != 0,
        half_irq: word & CCR_HTIE != 0,
        error_irq: word & CCR_TEIE != 0,
        from_memory: word & CCR_DIR != 0,
        circular: word & CCR_CIRC != 0,
        periph_incr: word & CCR_PINC != 0,
        mem_incr: word & CCR_MINC != 0,
        periph_size: (word >> 8) & 3,
        mem_size: (word >> 10) & 3,
        priority: (word >> 12) & 3,
        mem2mem: word & CCR_MEM2MEM != 0,
    }
}

/// The word written to arm a channel: `base` with the configuration fields
/// replaced, and with TCIE and EN set.
pub open spec fn control_word(
    base: u32,
    priority: u32,
    from_memory: bool,
    circular: bool,
    periph_incr: bool,
    mem_incr: bool,
    periph_size: u32,
    mem_size: u32,
) -> u32 {
    (base & !CCR_ARM_MASK) | (priority << 12) | (mem_size << 10) | (periph_size << 8) | (if mem_incr {
        CCR_MINC
    } else {
        0
    }) | (if periph_incr {
        CCR_PINC
    } else {
        0
    }) | (if circular {
        CCR_CIRC
    } else {
        0
    }) | (if from_memory {
        CCR_DIR
    } else {
        0
    }) | CCR_TCIE | CCR_EN
}

/// What a channel's control register holds after `value` is written to it
/// while it holds `current`: an enabled channel takes a new enable bit and
/// nothing else, a disabled one takes the whole word.
pub open spec fn ccr_after_write(current: u32, value: u32) -> u32 {
    if current & CCR_EN != 0 {
        (current & !CCR_EN) | (value & CCR_EN)
    } else {
        value
    }
}

/// The status and clear-flag bit of interrupt `kind` (1 complete, 2 half,
/// 3 error) of the channel with index `index` (0 for channel 1).
pub open spec fn flag_mask(index: u32, kind: u32) -> u32 {
    1u32 << (4 * index + kind)
}

/// The request-selection field of the channel with index `index`.
pub open spec fn select_mask(index: u32) -> u32 {
    0xfu32 << (4 * index)
}

/// The request-identity field of a multiplexer channel register.
pub const MUX_REQ_ID: u32 = 0x7f;

/// Computes [`control_word`].
pub fn make_control_word(
    base: u32,
    priority: u32,
    from_memory: bool,
    circular: bool,
    periph_incr: bool,
    mem_incr: bool,
    periph_size: u32,
    mem_size: u32,
) -> (word: u32)
    requires
        priority <= 3,
        periph_size <= 3,
        mem_size <= 3,
    ensures
        word == control_word(
            base,
            priority,
            from_memory,
            circular,
            periph_incr,
            mem_incr,
            periph_size,
            mem_size,
        ),
{
    let minc: u32 = if mem_incr { CCR_MINC } else { 0 };
    let pinc: u32 = if periph_incr { CCR_PINC } else { 0 };
    let circ: u32 = if circular { CCR_CIRC } else { 0 };
    let dir: u32 = if from_memory { CCR_DIR } else { 0 };
    assert(priority << 12 <= 0x3000 && mem_size << 10 <= 0x0c00 && periph_size << 8 <= 0x0300)
        by (bit_vector)
        requires
            priority <= 3,
            periph_size <= 3,
            mem_size <= 3,
    ;
    (base & !CCR_ARM_MASK) | (priority << 12) | (mem_size << 10) | (periph_size << 8) | minc | pinc
        | circ | dir | CCR_TCIE | CCR_EN
}

/// Arming writes exactly the requested pattern: each configuration field of
/// the armed word holds the requested value, TCIE and EN are set, and HTIE,
/// TEIE, MEM2MEM and the reserved bits are those of `base`.
pub proof fn lemma_control_word_fields(
    base: u32,
    priority: u32,
    from_memory: bool,
    circular: bool,
    periph_incr: bool,
    mem_incr: bool,
    periph_size: u32,
    mem_size: u32,
)
    requires
        priority <= 3,
        periph_size <= 3,
        mem_size <= 3,
    ensures
        decode(
            control_word(
                base,
                priority,
                from_memory,
                circular,
                periph_incr,
                mem_incr,
                periph_size,
                mem_size,
            ),
        ) == (ControlFields {
            enabled: true,
            complete_irq: true,
            half_irq: decode(base).half_irq,
            error_irq: decode(base).error_irq,
            from_memory,
            circular,
            periph_incr,
            mem_incr,
            periph_size,
            mem_size,
            priority,
            mem2mem: decode(base).mem2mem,
        }),
        control_word(
            base,
            priority,
            from_memory,
            circular,
            periph_incr,
            mem_incr,
            periph_size,
            mem_size,
        ) & !CCR_ARM_MASK == base & !CCR_ARM_MASK,
{
    let minc: u32 = if mem_incr { CCR_MINC } else { 0 };
    let pinc: u32 = if periph_incr { CCR_PINC } else { 0 };
    let circ: u32 = if circular { CCR_CIRC } else { 0 };
    let dir: u32 = if from_memory { CCR_DIR } else { 0 };
    let w: u32 = (base & !CCR_ARM_MASK) | (priority << 12) | (mem_size << 10) | (periph_size << 8)
        | minc | pinc | circ | dir | CCR_TCIE | CCR_EN;
    assert(w == control_word(
        base,
        priority,
        from_memory,
        circular,
        periph_incr,
        mem_incr,
        periph_size,
        mem_size,
    ));
    assert(w & 0x0001 != 0 && w & 0x0002 != 0 && (w & 0x0004 != 0) == (base & 0x0004 != 0) && (w
        & 0x0008 != 0) == (base & 0x0008 != 0) && (w & 0x4000 != 0) == (base & 0x4000 != 0) && (w
        & 0x0010) == dir && (w & 0x0020) == circ && (w & 0x0040) == pinc && (w & 0x0080) == minc
        && (w >> 8) & 3 == periph_size && (w >> 10) & 3 == mem_size && (w >> 12) & 3 == priority
        && w & !0x3ff3u32 == base & !0x3ff3u32) by (bit_vector)
        requires
            w == (base & !0x3ff3u32) | (priority << 12) | (mem_size << 10) | (periph_size << 8)
                | minc | pinc | circ | dir | 0x0002u32 | 0x0001u32,
            priority <= 3,
            periph_size <= 3,
            mem_size <= 3,
            minc == 0 || minc == 0x80,
            pinc == 0 || pinc == 0x40,
            circ == 0 || circ == 0x20,
            dir == 0 || dir == 0x10,
    ;
}

/// Clearing the enable bit of an enabled channel takes effect, and leaves
/// the other bits as they were.
pub proof fn lemma_disable(current: u32)
    ensures
        ccr_after_write(current, current & !CCR_EN) == current & !CCR_EN,
        (current & !CCR_EN) & CCR_EN == 0,
        current & CCR_EN == 0 ==> current & !CCR_EN == current,
        (current & !CCR_EN) & !CCR_EN == current & !CCR_EN,
{
    assert((current & !1u32) | ((current & !1u32) & 1u32) == current & !1u32) by (bit_vector);
    assert((current & !1u32) & 1u32 == 0) by (bit_vector);
    assert(current & 1u32 == 0 ==> current & !1u32 == current) by (bit_vector);
    assert((current & !1u32) & !1u32 == current & !1u32) by (bit_vector);
}

/// Clearing MEM2MEM keeps a disabled channel disabled, and the armed word
/// does not depend on the enable bit of the word it starts from.
pub proof fn lemma_arm_base(
    current: u32,
    priority: u32,
    from_memory: bool,
    circular: bool,
    periph_incr: bool,
    mem_incr: bool,
    periph_size: u32,
    mem_size: u32,
)
    ensures
        ((current & !CCR_EN) & !CCR_MEM2MEM) & CCR_EN == 0,
        ((current & !CCR_EN) & !CCR_MEM2MEM) & CCR_MEM2MEM == 0,
        (current & !CCR_MEM2MEM) & CCR_MEM2MEM == 0,
        control_word(
            current & !CCR_EN,
            priority,
            from_memory,
            circular,
            periph_incr,
            mem_incr,
            periph_size,
            mem_size,
        ) == control_word(
            current,
            priority,
            from_memory,
            circular,
            periph_incr,
            mem_incr,
            periph_size,
            mem_size,
        ),
        control_word(
            (current & !CCR_EN) & !CCR_MEM2MEM,
            priority,
            from_memory,
            circular,
            periph_incr,
            mem_incr,
            periph_size,
            mem_size,
        ) == control_word(
            current & !CCR_MEM2MEM,
            priority,
            from_memory,
            circular,
            periph_incr,
            mem_incr,
            periph_size,
            mem_size,
        ),
        (decode(current & !CCR_MEM2MEM).half_irq <==> decode(current).half_irq),
        (decode(current & !CCR_MEM2MEM).error_irq <==> decode(current).error_irq),
        !decode(current & !CCR_MEM2MEM).mem2mem,
{
    let a: u32 = current & !CCR_EN;
    let b: u32 = current & !CCR_MEM2MEM;
    let c: u32 = (current & !CCR_EN) & !CCR_MEM2MEM;
    assert(c & 1u32 == 0 && c & 0x4000u32 == 0 && b & 0x4000u32 == 0 && a & !0x3ff3u32 == current
        & !0x3ff3u32 && c & !0x3ff3u32 == b & !0x3ff3u32 && (b & 4u32 != 0) == (current & 4u32
        != 0) && (b & 8u32 != 0) == (current & 8u32 != 0)) by (bit_vector)
        requires
            a == current & !1u32,
            b == current & !0x4000u32,
            c == (current & !1u32) & !0x4000u32,
    ;
}

/// Setting an interrupt-enable bit on a channel that was disabled for it,
/// and enabling the channel again, gives the word as it was, with that bit set.
pub proof fn lemma_interrupt_cycle(current: u32, bit: u32)
    requires
        bit == CCR_TCIE || bit == CCR_HTIE || bit == CCR_TEIE,
    ensures
        ((current & !CCR_EN) | bit) & CCR_EN == 0,
        current & CCR_EN != 0 ==> (((current & !CCR_EN) | bit) | CCR_EN) == current | bit,
        ((((current & !CCR_EN) | bit) | CCR_EN) & CCR_EN) != 0,
        current & CCR_EN == 0 ==> (current | bit) & CCR_EN == 0,
        (current | bit) & bit != 0,
        (current | bit) & !bit == current & !bit,
{
    assert(((current & !1u32) | bit) & 1u32 == 0 && (current & 1u32 != 0 ==> (((current & !1u32)
        | bit) | 1u32) == current | bit) && ((((current & !1u32) | bit) | 1u32) & 1u32) != 0 && (
    current & 1u32 == 0 ==> (current | bit) & 1u32 == 0) && (current | bit) & bit != 0 && (current
        | bit) & !bit == current & !bit) by (bit_vector)
        requires
            bit == 2u32 || bit == 4u32 || bit == 8u32,
    ;
}

/// The count register holds every sixteen-bit count as it is.
pub proof fn lemma_count_fits(count: u16)
    ensures
        (count as u32) & 0xffff == count as u32,
{
    assert((count as u32) & 0xffff == count as u32) by (bit_vector);
}

/// `current` with the request-selection field of the channel with index
/// `index` holding `value`.
pub open spec fn select_word(current: u32, index: u32, value: u32) -> u32 {
    (current & !select_mask(index)) | (value << (4 * index))
}

/// `current` with the request-identity field holding `id`.
pub open spec fn mux_word(current: u32, id: u32) -> u32 {
    (current & !MUX_REQ_ID) | id
}

/// A status word has a flag clear once the flag's bit was written to the
/// clear-flag register, and every other flag as before.
pub proof fn lemma_clear_flag(isr: u32, index: u32, kind: u32, other_index: u32, other_kind: u32)
    requires
        index < 8,
        kind < 4,
        other_index < 8,
        other_kind < 4,
    ensures
        (isr & !flag_mask(index, kind)) & flag_mask(index, kind) == 0,
        (index != other_index || kind != other_kind) ==> (isr & !flag_mask(index, kind))
            & flag_mask(other_index, other_kind) == isr & flag_mask(other_index, other_kind),
{
    let m: u32 = flag_mask(index, kind);
    let o: u32 = flag_mask(other_index, other_kind);
    assert((isr & !m) & m == 0 && ((index != other_index || kind != other_kind) ==> (isr & !m) & o
        == isr & o)) by (bit_vector)
        requires
            index < 8,
            kind < 4,
            other_index < 8,
            other_kind < 4,
            m == 1u32 << (4 * index + kind),
            o == 1u32 << (4 * other_index + other_kind),
    ;
}

/// After a request is selected for a channel, the channel's selection field
/// holds it and the fields of the other channels are as before.
pub proof fn lemma_select_field(current: u32, index: u32, value: u32)
    requires
        index < 8,
        value <= 0xf,
    ensures
        (select_word(current, index, value) >> (4 * index)) & 0xf == value,
        select_word(current, index, value) & !select_mask(index) == current & !select_mask(index),
{
    let m: u32 = select_mask(index);
    let w: u32 = select_word(current, index, value);
    assert((w >> (4 * index)) & 0xf == value && w & !m == current & !m) by (bit_vector)
        requires
            index < 8,
            value <= 0xf,
            m == 0xfu32 << (4 * index),
            w == (current & !m) | (value << (4 * index)),
    ;
}

/// After a request is bound to a multiplexer channel, the request-identity
/// field holds it and the other bits are as before.
pub proof fn lemma_mux_field(current: u32, id: u32)
    requires
        id <= MUX_REQ_ID,
    ensures
        mux_word(current, id) & MUX_REQ_ID == id,
        mux_word(current, id) & !MUX_REQ_ID == current & !MUX_REQ_ID,
{
    assert(((current & !0x7fu32) | id) & 0x7fu32 == id && ((current & !0x7fu32) | id) & !0x7fu32
        == current & !0x7fu32) by (bit_vector)
        requires
            id <= 0x7fu32,
    ;
}

} // verus!
