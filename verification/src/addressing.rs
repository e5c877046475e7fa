//! Disc address model: Logical Block Address (LBA), Logical Sector Number
//! (LSN) and Minute:Second:Frame (MSF) time addresses, with the MMC-6 bounds
//! and the exact dual-band conversion between LBA and MSF.

use vstd::prelude::*;
use vstd::std_specs::cmp::PartialOrdSpec;
use core::cmp::Ordering;

verus! {

/// Frames of audio per second of playback.
pub const FRAMES_PER_SECOND: i32 = 75;

/// Frames of audio per minute of playback.
pub const FRAMES_PER_MINUTE: i32 = 4500;

/// Frames between absolute time 00:00:00 and the block at LBA 0 (two seconds
/// of pregap at 75 frames per second).
pub const PREGAP_OFFSET: i32 = 150;

/// Smallest valid Logical Block Address: the MMC-6 lead-out band starts at
/// MSF 90:00:00, which addresses LBA -45150.
pub const LBA_MIN: i32 = -45150;

/// Largest valid Logical Block Address: MSF 89:59:74 addresses LBA 404849.
pub const LBA_MAX: i32 = 404849;

/// Smallest valid Logical Sector Number (`LBA_MIN + PREGAP_OFFSET`).
pub const LSN_MIN: i32 = -45000;

/// Largest valid Logical Sector Number (`LBA_MAX + PREGAP_OFFSET`).
pub const LSN_MAX: i32 = 404999;

/// Offset subtracted from the frame count of an MSF in the lead-out band
/// (90:00:00 through 99:59:74) to obtain its LBA.
pub const LEADOUT_BAND_OFFSET: i32 = 450150;

/// Failure to construct a block address from out-of-range components.
#[derive(Clone, Copy, Debug, PartialEq, Eq, Structural)]
pub enum BlockAddressError {
    OutOfRange,
}

/// Total frame count of the MSF triple `(m, s, f)`.
pub open spec fn msf_frames(m: int, s: int, f: int) -> int {
    m * 4500 + s * 75 + f
}

/// The MSF components are each within their independent bounds.
pub open spec fn msf_in_bounds(m: int, s: int, f: int) -> bool {
    0 <= m <= 99 && 0 <= s <= 59 && 0 <= f <= 74
}

/// LBA addressed by the MSF triple `(m, s, f)`: frames minus the pregap in
/// the main band (minutes 0 through 89), frames minus the lead-out offset in
/// the lead-out band (minutes 90 through 99).
pub open spec fn lba_of_msf(m: int, s: int, f: int) -> int {
    if m < 90 {
        msf_frames(m, s, f) - 150
    } else {
        msf_frames(m, s, f) - 450150
    }
}

/// Frame count of the MSF that addresses LBA `v`.
pub open spec fn frames_of_lba(v: int) -> int {
    if v >= -150 {
        v + 150
    } else {
        v + 450150
    }
}

/// Minute component of the MSF that addresses LBA `v`.
pub open spec fn msf_m_of_lba(v: int) -> int {
    frames_of_lba(v) / 4500
}

/// Second component of the MSF that addresses LBA `v`.
pub open spec fn msf_s_of_lba(v: int) -> int {
    (frames_of_lba(v) % 4500) / 75
}

/// Frame component of the MSF that addresses LBA `v`.
pub open spec fn msf_f_of_lba(v: int) -> int {
    (frames_of_lba(v) % 4500) % 75
}

/// Law: for every valid LBA, decomposing it into an MSF triple and applying
/// the MSF-to-LBA formula returns the original address, and the triple is
/// within the MSF bounds.
pub proof fn lemma_lba_msf_round_trip(v: int)
    requires
        LBA_MIN <= v <= LBA_MAX,
    ensures
        msf_in_bounds(msf_m_of_lba(v), msf_s_of_lba(v), msf_f_of_lba(v)),
        lba_of_msf(msf_m_of_lba(v), msf_s_of_lba(v), msf_f_of_lba(v)) == v,
{
    let fr = frames_of_lba(v);
    let m = fr / 4500;
    let rem = fr % 4500;
    let s = rem / 75;
    let f = rem % 75;
    vstd::arithmetic::div_mod::lemma_fundamental_div_mod(fr, 4500);
    vstd::arithmetic::div_mod::lemma_mod_bound(fr, 4500);
    vstd::arithmetic::div_mod::lemma_fundamental_div_mod(rem, 75);
    vstd::arithmetic::div_mod::lemma_mod_bound(rem, 75);
    assert(fr == 4500 * m + 75 * s + f);
    assert(0 <= fr <= 449999);
    assert(0 <= m <= 99 && 0 <= s <= 59 && 0 <= f <= 74);
    if v >= -150 {
        assert(fr <= 404999);
        assert(m < 90);
    } else {
        assert(fr >= 405000);
        assert(m >= 90);
    }
}

/// Law: for every MSF triple within bounds, the MSF-to-LBA formula lands
/// inside the valid LBA interval and decomposing that address returns the
/// original triple; with the round trip the other way, the two conversions
/// are mutually inverse bijections.
pub proof fn lemma_msf_lba_round_trip(m: int, s: int, f: int)
    requires
        msf_in_bounds(m, s, f),
    ensures
        LBA_MIN <= lba_of_msf(m, s, f) <= LBA_MAX,
        msf_m_of_lba(lba_of_msf(m, s, f)) == m,
        msf_s_of_lba(lba_of_msf(m, s, f)) == s,
        msf_f_of_lba(lba_of_msf(m, s, f)) == f,
{
    let frames = msf_frames(m, s, f);
    let v = lba_of_msf(m, s, f);
    assert(0 <= frames <= 449999);
    if m < 90 {
        assert(frames <= 89 * 4500 + 59 * 75 + 74);
        assert(-150 <= v <= 404849);
    } else {
        assert(frames >= 90 * 4500);
        assert(-45150 <= v <= -151);
    }
    assert(frames_of_lba(v) == frames);
    let rem = 75 * s + f;
    assert(0 <= rem < 4500);
    vstd::arithmetic::div_mod::lemma_fundamental_div_mod_converse_div(frames, 4500, m, rem);
    vstd::arithmetic::div_mod::lemma_fundamental_div_mod_converse_mod(frames, 4500, m, rem);
    vstd::arithmetic::div_mod::lemma_fundamental_div_mod_converse_div(rem, 75, s, f);
    vstd::arithmetic::div_mod::lemma_fundamental_div_mod_converse_mod(rem, 75, s, f);
}

/// A Logical Block Address: a signed block index whose index 0 names the
/// first playable block at time 00:02:00; the pregap occupies the negative
/// addresses -150 through -1 and the lead-out band reaches further down.
#[derive(Clone, Copy, Debug, PartialEq, Eq, Structural)]
pub struct Lba(pub i32);

impl Lba {
    /// An LBA is valid when it lies in the closed MMC-6 interval.
    pub open spec fn valid(self) -> bool {
        LBA_MIN <= self.0 <= LBA_MAX
    }

    /// Validating constructor: accepts exactly the values of the MMC-6
    /// interval and rejects everything else.
    pub fn try_from(value: i32) -> (r: Result<Lba, BlockAddressError>)
        ensures
            LBA_MIN <= value <= LBA_MAX <==> r == Ok::<Lba, BlockAddressError>(Lba(value)),
            !(LBA_MIN <= value <= LBA_MAX) <==> r == Err::<Lba, BlockAddressError>(
                BlockAddressError::OutOfRange,
            ),
    {
        if LBA_MIN <= value && value <= LBA_MAX {
            Ok(Lba(value))
        } else {
            Err(BlockAddressError::OutOfRange)
        }
    }

    /// The raw block index.
    pub fn raw(self) -> (r: i32)
        ensures
            r == self.0,
    {
        self.0
    }

    /// The LBA addressed by a valid MSF triple. Total on valid MSF values:
    /// both bands of the conversion land inside the valid LBA interval.
    pub fn from(value: Msf) -> (r: Lba)
        requires
            value.valid(),
        ensures
            r.valid(),
            r.0 == lba_of_msf(value.0 as int, value.1 as int, value.2 as int),
    {
        let frames: i32 = (value.0 as i32) * FRAMES_PER_MINUTE + (value.1 as i32)
            * FRAMES_PER_SECOND + (value.2 as i32);
        if value.0 < 90 {
            Lba(frames - PREGAP_OFFSET)
        } else {
            Lba(frames - LEADOUT_BAND_OFFSET)
        }
    }

    /// The LBA of a valid LSN: the same sector, shifted down by the pregap
    /// so that LSN 150 becomes LBA 0.
    pub fn from_lsn(value: Lsn) -> (r: Lba)
        requires
            value.valid(),
        ensures
            r.valid(),
            r.0 == value.0 - PREGAP_OFFSET,
    {
        Lba(value.0 - PREGAP_OFFSET)
    }
}

/// A Logical Sector Number: an absolute sector index counted from the
/// disc's time origin, so index 0 names the frame at 00:00:00, the pregap
/// occupies indices 0 through 149, and the first playable block of a CD-DA
/// (LBA 0) sits at index 150.
#[derive(Clone, Copy, Debug, PartialEq, Eq, Structural)]
pub struct Lsn(pub i32);

impl Lsn {
    /// An LSN is valid when the corresponding LBA is valid.
    pub open spec fn valid(self) -> bool {
        LSN_MIN <= self.0 <= LSN_MAX
    }

    /// Validating constructor: accepts exactly the values whose pregap-shifted
    /// LBA is valid.
    pub fn try_from(value: i32) -> (r: Result<Lsn, BlockAddressError>)
        ensures
            LSN_MIN <= value <= LSN_MAX <==> r == Ok::<Lsn, BlockAddressError>(Lsn(value)),
            !(LSN_MIN <= value <= LSN_MAX) <==> r == Err::<Lsn, BlockAddressError>(
                BlockAddressError::OutOfRange,
            ),
    {
        if LSN_MIN <= value && value <= LSN_MAX {
            Ok(Lsn(value))
        } else {
            Err(BlockAddressError::OutOfRange)
        }
    }

    /// The raw sector index.
    pub fn raw(self) -> (r: i32)
        ensures
            r == self.0,
    {
        self.0
    }

    /// The LSN of a valid LBA: the same sector, shifted up by the pregap so
    /// that LBA 0 becomes LSN 150.
    pub fn from(value: Lba) -> (r: Lsn)
        requires
            value.valid(),
        ensures
            r.valid(),
            r.0 == value.0 + PREGAP_OFFSET,
    {
        Lsn(value.0 + PREGAP_OFFSET)
    }
}

/// A Minute:Second:Frame time address: minutes, seconds within the minute and
/// frames within the second, at 75 frames per second. Stored in binary, not
/// binary-coded decimal.
#[derive(Clone, Copy, Debug, PartialEq, Eq, Structural)]
pub struct Msf(pub u8, pub u8, pub u8);

impl Msf {
    /// An MSF is valid when each component is within its independent bound:
    /// minutes 0 through 99, seconds 0 through 59, frames 0 through 74.
    pub open spec fn valid(self) -> bool {
        msf_in_bounds(self.0 as int, self.1 as int, self.2 as int)
    }

    /// Validating constructor: accepts exactly the triples whose components
    /// are each within bounds, and rejects everything else.
    pub fn new(m: u8, s: u8, f: u8) -> (r: Result<Msf, BlockAddressError>)
        ensures
            (m <= 99 && s <= 59 && f <= 74) <==> r == Ok::<Msf, BlockAddressError>(Msf(m, s, f)),
            !(m <= 99 && s <= 59 && f <= 74) <==> r == Err::<Msf, BlockAddressError>(
                BlockAddressError::OutOfRange,
            ),
    {
        if m <= 99 && s <= 59 && f <= 74 {
            Ok(Msf(m, s, f))
        } else {
            Err(BlockAddressError::OutOfRange)
        }
    }

    /// The MSF triple addressing a valid LBA. Addresses at or above the
    /// pregap start (-150) decompose into minutes 0 through 89; addresses
    /// below it fall in the lead-out band, minutes 90 through 99. Converting
    /// the result back with the MSF-to-LBA formula returns `value` exactly.
    pub fn from(value: Lba) -> (r: Msf)
        requires
            value.valid(),
        ensures
            r.valid(),
            r.0 == msf_m_of_lba(value.0 as int),
            r.1 == msf_s_of_lba(value.0 as int),
            r.2 == msf_f_of_lba(value.0 as int),
            lba_of_msf(r.0 as int, r.1 as int, r.2 as int) == value.0,
    {
        proof {
            lemma_lba_msf_round_trip(value.0 as int);
        }
        let frames: i32 = if value.0 >= -PREGAP_OFFSET {
            value.0 + PREGAP_OFFSET
        } else {
            value.0 + LEADOUT_BAND_OFFSET
        };
        proof {
            vstd::arithmetic::div_mod::lemma_fundamental_div_mod(frames as int, 4500);
            vstd::arithmetic::div_mod::lemma_mod_bound(frames as int, 4500);
            vstd::arithmetic::div_mod::lemma_fundamental_div_mod((frames as int) % 4500, 75);
            vstd::arithmetic::div_mod::lemma_mod_bound((frames as int) % 4500, 75);
        }
        let m: i32 = frames / FRAMES_PER_MINUTE;
        let rem: i32 = frames % FRAMES_PER_MINUTE;
        let s: i32 = rem / FRAMES_PER_SECOND;
        let f: i32 = rem % FRAMES_PER_SECOND;
        Msf(m as u8, s as u8, f as u8)
    }

    /// The MSF triple addressing a valid LSN.
    pub fn from_lsn(value: Lsn) -> (r: Msf)
        requires
            value.valid(),
        ensures
            r.valid(),
            lba_of_msf(r.0 as int, r.1 as int, r.2 as int) == value.0 - PREGAP_OFFSET,
    {
        Msf::from(Lba::from_lsn(value))
    }
}

impl PartialOrd for Msf {
    /// Total lexicographic order on the (minute, second, frame) triple.
    fn partial_cmp(&self, other: &Msf) -> (r: Option<Ordering>) {
        if self.0 != other.0 {
            if self.0 < other.0 {
                Some(Ordering::Less)
            } else {
                Some(Ordering::Greater)
            }
        } else if self.1 != other.1 {
            if self.1 < other.1 {
                Some(Ordering::Less)
            } else {
                Some(Ordering::Greater)
            }
        } else if self.2 != other.2 {
            if self.2 < other.2 {
                Some(Ordering::Less)
            } else {
                Some(Ordering::Greater)
            }
        } else {
            Some(Ordering::Equal)
        }
    }
}

impl vstd::std_specs::cmp::PartialOrdSpecImpl for Msf {
    open spec fn obeys_partial_cmp_spec() -> bool {
        true
    }

    open spec fn partial_cmp_spec(&self, other: &Msf) -> Option<Ordering> {
        if self.0 != other.0 {
            if self.0 < other.0 {
                Some(Ordering::Less)
            } else {
                Some(Ordering::Greater)
            }
        } else if self.1 != other.1 {
            if self.1 < other.1 {
                Some(Ordering::Less)
            } else {
                Some(Ordering::Greater)
            }
        } else if self.2 != other.2 {
            if self.2 < other.2 {
                Some(Ordering::Less)
            } else {
                Some(Ordering::Greater)
            }
        } else {
            Some(Ordering::Equal)
        }
    }
}

/// Law: the order on MSF values is the lexicographic order on their triples,
/// and it is total: every comparison of two MSF values is decided.
pub proof fn lemma_msf_order_lexicographic(a: Msf, b: Msf)
    ensures
        a.partial_cmp_spec(&b) == Some(Ordering::Less) <==> (a.0 < b.0 || (a.0 == b.0 && (a.1
            < b.1 || (a.1 == b.1 && a.2 < b.2)))),
        a.partial_cmp_spec(&b) == Some(Ordering::Equal) <==> a == b,
        a.partial_cmp_spec(&b) == Some(Ordering::Greater) <==> (b.0 < a.0 || (b.0 == a.0 && (b.1
            < a.1 || (b.1 == a.1 && b.2 < a.2)))),
{
}

} // verus!
