//! Parameters for hypercalls.
//!
//! A hypercall's return slot holds a plain signed integer, a [`TaggedNumber`].
//! The enums [`IoResult32`], [`IoResult64`] and [`TristateResult`] are its
//! high-level meaning: `from` decodes a number into a result and `try_as_num`
//! encodes a result back into a number.
//!
//! The contracts of `from` speak of errnos and counts through
//! `NonZeroU32::with_value` and `NonZeroU64::with_value`; a verified caller brings
//! `crate::nonzero::group_nonzero` into scope to read them.
use core::marker::PhantomData;
use vstd::prelude::*;

pub use crate::nonzero::{NonZeroU32, NonZeroU64};
pub use hermit_abi::errno::{
    EBADF, EEXIST, EFAULT, EINVAL, EIO, EISDIR, ENOENT, EOVERFLOW, EPERM, EROFS,
};
pub use hermit_abi::{
    O_APPEND, O_CREAT, O_DIRECTORY, O_EXCL, O_RDONLY, O_RDWR, O_TRUNC, O_WRONLY, SEEK_CUR,
    SEEK_END, SEEK_SET,
};

verus! {

broadcast use crate::nonzero::group_nonzero;

/// File operations supported by Hermit and Uhyve: `O_RDONLY | O_WRONLY | O_RDWR |
/// O_CREAT | O_EXCL | O_TRUNC | O_APPEND | O_DIRECTORY`, with hermit-abi's values.
pub const ALLOWED_OPEN_FLAGS: i32 = 0o0 | 0o1 | 0o2 | 0o100 | 0o200 | 0o1000 | 0o2000 | 0o200000;

/// The largest errno that a 32-bit signed return value can carry: its negation is
/// `i32::MIN`.
pub const MAX_ERRNO: u32 = 0x8000_0000;

/// A raw signed return value of a hypercall, tagged with the result type `T2` that
/// it encodes.
#[derive(Debug, Default, PartialEq, Eq, PartialOrd, Ord, Hash)]
pub struct TaggedNumber<T, T2> {
    num: T,
    _phantom: PhantomData<T2>,
}

impl<T: Copy, T2> Clone for TaggedNumber<T, T2> {
    fn clone(&self) -> (r: Self)
        ensures
            r == *self,
    {
        *self
    }
}

impl<T: Copy, T2> Copy for TaggedNumber<T, T2> {

}

impl<T, T2> View for TaggedNumber<T, T2> {
    type V = T;

    closed spec fn view(&self) -> T {
        self.num
    }
}

impl<T, T2> TaggedNumber<T, T2> {
    /// Two tagged numbers are the same exactly when their numbers are.
    pub broadcast proof fn lemma_view_injective(a: Self, b: Self)
        ensures
            #![trigger a@, b@]
            a@ == b@ <==> a == b,
    {
    }

    /// The raw number.
    pub fn num(self) -> (r: T)
        where
            T: Copy,
        ensures
            r == self@,
    {
        self.num
    }

    /// Tags the raw number `num`.
    pub fn new(num: T) -> (r: Self)
        ensures
            r@ == num,
    {
        TaggedNumber { num, _phantom: PhantomData }
    }
}

/// High-level representation of a 64-bit result.
#[derive(Clone, Copy, Debug, PartialEq, Eq, PartialOrd, Ord, Hash)]
pub enum IoResult64 {
    /// INVARIANT: `Success(x)` has `x` with value `<= i64::MAX as u64`.
    Success(u64),
    /// INVARIANT: `Errno(x)` has `x` with value `<= -(i32::MIN + 1) as u32 + 1`.
    Errno(NonZeroU32),
}

/// High-level representation of a 32-bit result.
#[derive(Clone, Copy, Debug, PartialEq, Eq, PartialOrd, Ord, Hash)]
pub enum IoResult32 {
    /// INVARIANT: `Success(x)` has `x` with value `<= i32::MAX as u64`.
    Success(u32),
    /// INVARIANT: `Errno(x)` has `x` with value `<= -(i32::MIN + 1) as u32 + 1`.
    Errno(NonZeroU32),
}

/// High-level representation of a result that is either nothing yet, success, or an
/// errno.
#[derive(Clone, Copy, Debug, PartialEq, Eq, PartialOrd, Ord, Hash)]
pub enum TristateResult {
    /// No result. Guests should set this value before calling the hypercall.
    Pending,
    /// Data was committed on success.
    Success,
    /// Error with libc errno.
    Errno(NonZeroU32),
}

impl IoResult64 {
    /// The documented invariant of the variants (an errno, being a `NonZeroU32`, is
    /// never zero).
    pub open spec fn spec_valid(self) -> bool {
        match self {
            IoResult64::Success(x) => x <= i64::MAX,
            IoResult64::Errno(e) => 0 < e@ <= MAX_ERRNO,
        }
    }

    /// The number that encodes this result, if there is one: the count for `Success`,
    /// the negated errno for `Errno`.
    pub open spec fn spec_as_num(self) -> Option<i64> {
        if self.spec_valid() {
            match self {
                IoResult64::Success(x) => Some(x as i64),
                IoResult64::Errno(e) => Some((-e@) as i64),
            }
        } else {
            None
        }
    }

    /// The result that the number `n` decodes to: a negative number is an errno,
    /// taken modulo `2^32`; any other number is a count.
    pub open spec fn spec_from(n: i64) -> IoResult64 {
        if n < 0 {
            IoResult64::Errno(NonZeroU32::with_value(((-n) % 0x1_0000_0000) as u32))
        } else {
            IoResult64::Success(n as u64)
        }
    }

    /// Decodes a raw return value. A negative number whose negation is a multiple of
    /// `2^32` (among them `i64::MIN`) has no errno in `u32` and is not accepted.
    pub fn from(value: TaggedNumber<i64, IoResult64>) -> (r: Self)
        requires
            value@ >= 0 || (-value@) % 0x1_0000_0000 != 0,
        ensures
            r == Self::spec_from(value@),
            value@ >= 0 ==> r == IoResult64::Success(value@ as u64),
            value@ < 0 ==> (r matches IoResult64::Errno(e) && e@ == (-value@) % 0x1_0000_0000),
    {
        let n = value.num;
        if n < 0 {
            let m: i64 = -n;
            #[verifier::truncate]
            let e: u32 = m as u32;
            assert(e == m % 0x1_0000_0000) by (bit_vector)
                requires
                    m > 0,
                    e == m as u32,
            ;
            IoResult64::Errno(NonZeroU32::new(e).unwrap())
        } else {
            IoResult64::Success(n as u64)
        }
    }

    /// Attempts to convert this result value into an integer.
    pub fn try_as_num(self) -> (r: Option<TaggedNumber<i64, Self>>)
        ensures
            r is Some <==> self.spec_valid(),
            r matches Some(t) ==> self.spec_as_num() == Some(t@),
            self matches IoResult64::Success(x) ==> (r is Some <==> x <= i64::MAX) && (r matches Some(t) ==> t@ == x),
            self matches IoResult64::Errno(e) ==> (r is Some <==> e@ <= MAX_ERRNO) && (r matches Some(t) ==> t@ == -e@),
    {
        match self {
            IoResult64::Success(x) => {
                if x <= i64::MAX as u64 {
                    Some(TaggedNumber::new(x as i64))
                } else {
                    None
                }
            },
            IoResult64::Errno(x) => {
                let e = x.get();
                if e > MAX_ERRNO {
                    None
                } else {
                    Some(TaggedNumber::new(-((e - 1) as i64) - 1))
                }
            },
        }
    }
}

impl IoResult32 {
    /// The documented invariant of the variants (an errno, being a `NonZeroU32`, is
    /// never zero).
    pub open spec fn spec_valid(self) -> bool {
        match self {
            IoResult32::Success(x) => x <= i32::MAX,
            IoResult32::Errno(e) => 0 < e@ <= MAX_ERRNO,
        }
    }

    /// The number that encodes this result, if there is one: the count for `Success`,
    /// the negated errno for `Errno`.
    pub open spec fn spec_as_num(self) -> Option<i32> {
        if self.spec_valid() {
            match self {
                IoResult32::Success(x) => Some(x as i32),
                IoResult32::Errno(e) => Some((-e@) as i32),
            }
        } else {
            None
        }
    }

    /// The result that the number `n` decodes to: a negative number is an errno,
    /// any other number is a count.
    pub open spec fn spec_from(n: i32) -> IoResult32 {
        if n < 0 {
            IoResult32::Errno(NonZeroU32::with_value((-n) as u32))
        } else {
            IoResult32::Success(n as u32)
        }
    }


    /// Attempts to convert this result value into an integer.
    pub fn try_as_num(self) -> (r: Option<TaggedNumber<i32, Self>>)
        ensures
            r is Some <==> self.spec_valid(),
            r matches Some(t) ==> self.spec_as_num() == Some(t@),
            self matches IoResult32::Success(x) ==> (r is Some <==> x <= i32::MAX) && (r matches Some(t) ==> t@ == x),
            self matches IoResult32::Errno(e) ==> (r is Some <==> e@ <= MAX_ERRNO) && (r matches Some(t) ==> t@ == -e@),
    {
        match self {
            IoResult32::Success(x) => {
                if x <= i32::MAX as u32 {
                    Some(TaggedNumber::new(x as i32))
                } else {
                    None
                }
            },
            IoResult32::Errno(x) => {
                let e = x.get();
                if e > MAX_ERRNO {
                    None
                } else {
                    Some(TaggedNumber::new(-((e - 1) as i32) - 1))
                }
            },
        }
    }
}

impl TristateResult {
    /// The documented invariant of the variants: an errno fits a negative `i32` (and,
    /// being a `NonZeroU32`, is never zero).
    pub open spec fn spec_valid(self) -> bool {
        match self {
            TristateResult::Errno(e) => 0 < e@ <= MAX_ERRNO,
            _ => true,
        }
    }

    /// The number that encodes this result, if there is one: `1` for `Pending`, `0`
    /// for `Success`, the negated errno for `Errno`.
    pub open spec fn spec_as_num(self) -> Option<i32> {
        match self {
            TristateResult::Pending => Some(1),
            TristateResult::Success => Some(0),
            TristateResult::Errno(e) => if 0 < e@ <= MAX_ERRNO {
                Some((-e@) as i32)
            } else {
                None
            },
        }
    }

    /// The result that the number `n` decodes to: every positive number is `Pending`,
    /// zero is `Success` and a negative number is an errno.
    pub open spec fn spec_from(n: i32) -> TristateResult {
        if n > 0 {
            TristateResult::Pending
        } else if n == 0 {
            TristateResult::Success
        } else {
            TristateResult::Errno(NonZeroU32::with_value((-n) as u32))
        }
    }


    /// Attempts to convert this result value into an integer.
    pub fn try_as_num(self) -> (r: Option<TaggedNumber<i32, Self>>)
        ensures
            r is Some <==> self.spec_valid(),
            r matches Some(t) ==> self.spec_as_num() == Some(t@),
            self == TristateResult::Pending ==> (r matches Some(t) && t@ == 1),
            self == TristateResult::Success ==> (r matches Some(t) && t@ == 0),
            self matches TristateResult::Errno(e) ==> (r is Some <==> e@ <= MAX_ERRNO) && (r matches Some(t) ==> t@ == -e@),
    {
        match self {
            TristateResult::Pending => Some(TaggedNumber::new(1)),
            TristateResult::Success => Some(TaggedNumber::new(0)),
            TristateResult::Errno(x) => {
                let e = x.get();
                if e > MAX_ERRNO {
                    None
                } else {
                    Some(TaggedNumber::new(-((e - 1) as i32) - 1))
                }
            },
        }
    }
}

impl From<TaggedNumber<i32, IoResult32>> for IoResult32 {
    /// Decodes a raw return value. The negation is taken in `i64`, so `i32::MIN`
    /// decodes to the errno `2^31`.
    fn from(value: TaggedNumber<i32, IoResult32>) -> (r: Self)
        ensures
            r == Self::spec_from(value@),
            value@ >= 0 ==> r == IoResult32::Success(value@ as u32),
            value@ < 0 ==> (r matches IoResult32::Errno(e) && e@ == -value@),
    {
        let n = value.num;
        if n < 0 {
            IoResult32::Errno(NonZeroU32::new((-(n as i64)) as u32).unwrap())
        } else {
            IoResult32::Success(n as u32)
        }
    }
}

impl vstd::std_specs::convert::FromSpecImpl<TaggedNumber<i32, IoResult32>> for IoResult32 {
    open spec fn obeys_from_spec() -> bool {
        true
    }

    open spec fn from_spec(v: TaggedNumber<i32, IoResult32>) -> IoResult32 {
        IoResult32::spec_from(v@)
    }
}

impl From<TaggedNumber<i32, TristateResult>> for TristateResult {
    /// Decodes a raw return value. The negation is taken in `i64`, so `i32::MIN`
    /// decodes to the errno `2^31`.
    fn from(value: TaggedNumber<i32, TristateResult>) -> (r: Self)
        ensures
            r == Self::spec_from(value@),
            value@ > 0 ==> r == TristateResult::Pending,
            value@ == 0 ==> r == TristateResult::Success,
            value@ < 0 ==> (r matches TristateResult::Errno(e) && e@ == -value@),
    {
        let n = value.num;
        if n > 0 {
            TristateResult::Pending
        } else if let Some(e) = NonZeroU32::new((-(n as i64)) as u32) {
            TristateResult::Errno(e)
        } else {
            TristateResult::Success
        }
    }
}

impl vstd::std_specs::convert::FromSpecImpl<TaggedNumber<i32, TristateResult>> for TristateResult {
    open spec fn obeys_from_spec() -> bool {
        true
    }

    open spec fn from_spec(v: TaggedNumber<i32, TristateResult>) -> TristateResult {
        TristateResult::spec_from(v@)
    }
}

impl Default for TristateResult {
    /// The result before the hypercall: `Pending`.
    fn default() -> (r: Self)
        ensures
            r == TristateResult::Pending,
    {
        TristateResult::Pending
    }
}

/// Decoding the number that encodes a 64-bit result gives the result back, and that
/// number is one that `IoResult64::from` accepts.
pub proof fn lemma_io_result64_decode_encode(r: IoResult64)
    requires
        r.spec_valid(),
    ensures
        r.spec_as_num() matches Some(n) && (n >= 0 || (-n) % 0x1_0000_0000 != 0)
            && IoResult64::spec_from(n) == r,
{
}

/// Encoding the result that a number decodes to gives the number back, for every
/// number from `-2^31` up: the errnos that such numbers carry are all encodable.
pub proof fn lemma_io_result64_encode_decode(n: i64)
    requires
        n >= -0x8000_0000,
    ensures
        n >= 0 || (-n) % 0x1_0000_0000 != 0,
        IoResult64::spec_from(n).spec_valid(),
        IoResult64::spec_from(n).spec_as_num() == Some(n),
{
}

/// Distinct 64-bit results are encoded by distinct numbers.
pub proof fn lemma_io_result64_encoding_injective(a: IoResult64, b: IoResult64)
    requires
        a.spec_as_num() is Some,
        a.spec_as_num() == b.spec_as_num(),
    ensures
        a == b,
{
}

/// Decoding the number that encodes a 32-bit result gives the result back.
pub proof fn lemma_io_result32_decode_encode(r: IoResult32)
    requires
        r.spec_valid(),
    ensures
        r.spec_as_num() matches Some(n) && IoResult32::spec_from(n) == r,
{
}

/// Encoding the result that a number decodes to gives the number back.
pub proof fn lemma_io_result32_encode_decode(n: i32)
    ensures
        IoResult32::spec_from(n).spec_valid(),
        IoResult32::spec_from(n).spec_as_num() == Some(n),
{
}

/// Distinct 32-bit results are encoded by distinct numbers.
pub proof fn lemma_io_result32_encoding_injective(a: IoResult32, b: IoResult32)
    requires
        a.spec_as_num() is Some,
        a.spec_as_num() == b.spec_as_num(),
    ensures
        a == b,
{
}

/// Decoding the number that encodes a tristate result gives the result back.
pub proof fn lemma_tristate_result_decode_encode(r: TristateResult)
    requires
        r.spec_valid(),
    ensures
        r.spec_as_num() matches Some(n) && TristateResult::spec_from(n) == r,
{
}

/// Encoding the result that a number decodes to gives the number back, for every
/// number up to `1`: all larger numbers decode to `Pending`, which is encoded as `1`.
pub proof fn lemma_tristate_result_encode_decode(n: i32)
    ensures
        TristateResult::spec_from(n).spec_valid(),
        n <= 1 ==> TristateResult::spec_from(n).spec_as_num() == Some(n),
        n > 1 ==> TristateResult::spec_from(n) == TristateResult::Pending,
{
}

/// Distinct tristate results are encoded by distinct numbers.
pub proof fn lemma_tristate_result_encoding_injective(a: TristateResult, b: TristateResult)
    requires
        a.spec_as_num() is Some,
        a.spec_as_num() == b.spec_as_num(),
    ensures
        a == b,
{
}

/// A raw 64-bit value is decoded by its sign alone: every number from `0` up is a
/// count of that size, every negative number an errno, its negation modulo `2^32`.
pub proof fn lemma_io_result64_decodes_by_sign(n: i64)
    ensures
        n >= 0 ==> IoResult64::spec_from(n) == IoResult64::Success(n as u64),
        n < 0 ==> (IoResult64::spec_from(n) matches IoResult64::Errno(e) && e@ == (-n) % 0x1_0000_0000),
{
}

/// A 64-bit result is encoded by its variant: a count within `i64` as itself, an
/// errno within bounds as its negation; so the number is negative exactly for errnos.
pub proof fn lemma_io_result64_encodes_by_variant(r: IoResult64)
    ensures
        r matches IoResult64::Success(x) ==> (x <= i64::MAX ==> (r.spec_as_num() matches Some(n) && n == x)),
        r matches IoResult64::Errno(e) ==> (0 < e@ <= MAX_ERRNO ==> (r.spec_as_num() matches Some(n) && n == -e@)),
        r.spec_as_num() matches Some(n) ==> (n < 0 <==> r is Errno),
{
}

/// A raw 32-bit value is decoded by its sign alone: every number from `0` up is a
/// count (or descriptor) of that size, every negative number the errno `-n`.
pub proof fn lemma_io_result32_decodes_by_sign(n: i32)
    ensures
        n >= 0 ==> IoResult32::spec_from(n) == IoResult32::Success(n as u32),
        n < 0 ==> (IoResult32::spec_from(n) matches IoResult32::Errno(e) && e@ == -n),
{
}

/// A 32-bit result is encoded by its variant: a count within `i32` as itself, an
/// errno within bounds as its negation; so the number is negative exactly for errnos.
pub proof fn lemma_io_result32_encodes_by_variant(r: IoResult32)
    ensures
        r matches IoResult32::Success(x) ==> (x <= i32::MAX ==> (r.spec_as_num() matches Some(n) && n == x)),
        r matches IoResult32::Errno(e) ==> (0 < e@ <= MAX_ERRNO ==> (r.spec_as_num() matches Some(n) && n == -e@)),
        r.spec_as_num() matches Some(n) ==> (n < 0 <==> r is Errno),
{
}

/// A raw tristate value is decoded by its sign alone: positive numbers are
/// `Pending`, zero is `Success`, a negative number is the errno `-n`.
pub proof fn lemma_tristate_result_decodes_by_sign(n: i32)
    ensures
        n > 0 ==> TristateResult::spec_from(n) == TristateResult::Pending,
        n == 0 ==> TristateResult::spec_from(n) == TristateResult::Success,
        n < 0 ==> (TristateResult::spec_from(n) matches TristateResult::Errno(e) && e@ == -n),
{
}

/// A tristate result is encoded by its variant: `Pending` as `1`, `Success` as `0`,
/// an errno within bounds as its negation.
pub proof fn lemma_tristate_result_encodes_by_variant(r: TristateResult)
    ensures
        r == TristateResult::Pending ==> r.spec_as_num() == Some(1i32),
        r == TristateResult::Success ==> r.spec_as_num() == Some(0i32),
        r matches TristateResult::Errno(e) ==> (0 < e@ <= MAX_ERRNO ==> (r.spec_as_num() matches Some(n) && n == -e@)),
        r.spec_as_num() matches Some(n) ==> (n < 0 <==> r is Errno) && (n == 0 <==> r is Success),
{
}

} // verus!
