//! Parameters for hypercalls, third version of the interface.
//!
//! Besides the parameter blocks of the file hypercalls, this module holds the
//! encodings of their return values: a [`TaggedNumber`] is the raw signed value in
//! the parameter block, and [`IoResult64`], [`IoResult32`], [`TristateResult`] and
//! [`GetdentResult`] are its meaning. `from` decodes a number into a result and
//! `try_as_num` encodes a result back into a number.
//!
//! The contracts of `from` speak of errnos and counts through
//! `NonZeroU32::with_value` and `NonZeroU64::with_value`; a verified caller brings
//! `crate::nonzero::group_nonzero` into scope to read them.
use core::marker::PhantomData;
use vstd::prelude::*;

pub use crate::nonzero::{NonZeroU32, NonZeroU64};
pub use crate::parameters::{
    ALLOWED_OPEN_FLAGS, EBADF, EEXIST, EFAULT, EINVAL, EIO, EISDIR, ENOENT, EOVERFLOW, EPERM,
    EROFS, MAX_ERRNO, O_APPEND, O_CREAT, O_DIRECTORY, O_EXCL, O_RDONLY, O_RDWR, O_TRUNC,
    O_WRONLY, SEEK_CUR, SEEK_END, SEEK_SET,
};
use crate::GuestPhysAddr;

verus! {

broadcast use crate::nonzero::group_nonzero;

/// Parameters for a `FileClose` hypercall.
#[derive(Debug, Copy, Clone)]
pub struct CloseParams {
    /// File descriptor of the file.
    pub fd: i32,
    pub ret: TaggedNumber<i32, TristateResult>,
}

/// Parameters for a `FileOpen` hypercall.
#[derive(Debug, Copy, Clone)]
pub struct OpenParams {
    /// Pathname of the file to be opened.
    pub name: GuestPhysAddr,
    /// Posix file access mode flags.
    pub flags: i32,
    /// Access permissions upon opening/creating a file.
    pub mode: i32,
    /// File descriptor upon successful opening or negative value upon failure.
    pub ret: TaggedNumber<i32, IoResult32>,
}

/// Parameters for a `FileUnlink` hypercall.
#[derive(Debug, Copy, Clone)]
pub struct UnlinkParams {
    /// Address of the file that should be unlinked.
    pub name: GuestPhysAddr,
    pub ret: TaggedNumber<i32, TristateResult>,
}

/// Parameters for a `FileWrite` hypercall.
#[derive(Debug, Copy, Clone)]
pub struct WriteParams {
    /// Number of bytes in the buffer to be written.
    pub len: u64,
    /// Number of bytes written on success or errno.
    pub ret: TaggedNumber<i64, IoResult64>,
    /// Buffer to be written into the file.
    pub buf: GuestPhysAddr,
    /// File descriptor of the file.
    pub fd: i32,
}

/// Parameters for a `FileRead` hypercall.
#[derive(Debug, Copy, Clone)]
pub struct ReadParams {
    /// Number of bytes to read into the buffer.
    pub len: u64,
    /// Number of bytes read on success or errno.
    pub ret: TaggedNumber<i64, IoResult64>,
    /// Buffer to read the file into.
    pub buf: GuestPhysAddr,
    /// File descriptor of the file.
    pub fd: i32,
}

/// Parameters for a `FileLseek` hypercall.
#[derive(Debug, Copy, Clone)]
pub struct LseekParams {
    /// Offset in the file.
    pub offset: TaggedNumber<i64, IoResult64>,
    /// `whence` value of the lseek call.
    pub whence: u32,
    /// File descriptor of the file.
    pub fd: i32,
}

/// The error of a conversion from a number that names no variant of an enum.
#[derive(Debug, Copy, Clone, PartialEq, Eq)]
pub struct TryFromPrimitiveError<T> {
    /// The number that was converted.
    pub number: T,
}

/// File type enum from Linux kernel. Each variant stands for the number of the
/// kernel's `DT_*` constant that `spec_to_u8` gives; convert with `u8::from` and
/// `FileType::try_from`, since `as u8` yields the variant's position instead.
#[derive(PartialEq, Eq, Clone, Copy, Debug)]
pub enum FileType {
    /// `DT_UNKNOWN`, 0.
    Unknown,
    /// `DT_FIFO`, 1.
    Fifo,
    /// `DT_CHR`, 2.
    CharacterDevice,
    /// `DT_DIR`, 4.
    Directory,
    /// `DT_BLK`, 6.
    BlockDevice,
    /// `DT_REG`, 8.
    RegularFile,
    /// `DT_LNK`, 10.
    SymbolicLink,
    /// `DT_SOCK`, 12.
    Socket,
    /// `DT_WHT`, 14.
    Whiteout,
}

impl FileType {
    /// The number of the file type.
    pub open spec fn spec_to_u8(self) -> u8 {
        match self {
            FileType::Unknown => 0,
            FileType::Fifo => 1,
            FileType::CharacterDevice => 2,
            FileType::Directory => 4,
            FileType::BlockDevice => 6,
            FileType::RegularFile => 8,
            FileType::SymbolicLink => 10,
            FileType::Socket => 12,
            FileType::Whiteout => 14,
        }
    }

    /// The file type whose number is `n`, if there is one.
    pub open spec fn spec_from_u8(n: u8) -> Option<FileType> {
        match n {
            0 => Some(FileType::Unknown),
            1 => Some(FileType::Fifo),
            2 => Some(FileType::CharacterDevice),
            4 => Some(FileType::Directory),
            6 => Some(FileType::BlockDevice),
            8 => Some(FileType::RegularFile),
            10 => Some(FileType::SymbolicLink),
            12 => Some(FileType::Socket),
            14 => Some(FileType::Whiteout),
            _ => None,
        }
    }
}

impl From<FileType> for u8 {
    fn from(value: FileType) -> (r: u8)
        ensures
            r == value.spec_to_u8(),
    {
        match value {
            FileType::Unknown => 0,
            FileType::Fifo => 1,
            FileType::CharacterDevice => 2,
            FileType::Directory => 4,
            FileType::BlockDevice => 6,
            FileType::RegularFile => 8,
            FileType::SymbolicLink => 10,
            FileType::Socket => 12,
            FileType::Whiteout => 14,
        }
    }
}

impl vstd::std_specs::convert::FromSpecImpl<FileType> for u8 {
    open spec fn obeys_from_spec() -> bool {
        true
    }

    open spec fn from_spec(v: FileType) -> u8 {
        v.spec_to_u8()
    }
}

impl TryFrom<u8> for FileType {
    type Error = TryFromPrimitiveError<u8>;

    fn try_from(number: u8) -> (r: Result<FileType, TryFromPrimitiveError<u8>>)
        ensures
            r is Ok <==> FileType::spec_from_u8(number) is Some,
            r matches Ok(t) ==> FileType::spec_from_u8(number) == Some(t),
            r matches Err(e) ==> e.number == number,
    {
        match number {
            0 => Ok(FileType::Unknown),
            1 => Ok(FileType::Fifo),
            2 => Ok(FileType::CharacterDevice),
            4 => Ok(FileType::Directory),
            6 => Ok(FileType::BlockDevice),
            8 => Ok(FileType::RegularFile),
            10 => Ok(FileType::SymbolicLink),
            12 => Ok(FileType::Socket),
            14 => Ok(FileType::Whiteout),
            _ => Err(TryFromPrimitiveError { number }),
        }
    }
}

impl vstd::std_specs::convert::TryFromSpecImpl<u8> for FileType {
    open spec fn obeys_try_from_spec() -> bool {
        true
    }

    open spec fn try_from_spec(v: u8) -> Result<FileType, TryFromPrimitiveError<u8>> {
        match FileType::spec_from_u8(v) {
            Some(t) => Ok(t),
            None => Err(TryFromPrimitiveError { number: v }),
        }
    }
}

/// Dirent64 struct from Linux kernel
pub struct Dirent64 {
    /// 64-bit inode number
    pub d_ino: u64,
    /// Field without meaning. Kept for BW compatibility. Will not be used by Uhyve
    pub d_off: i64,
    /// Size of this dirent
    pub d_reclen: u16,
    /// File type
    pub d_type: FileType,
    /// Filename (null-terminated)
    pub d_name: PhantomData<u8>,
}

/// Result of a `Getdents` hypercall.
#[derive(Debug, Copy, Clone, PartialEq, Eq)]
pub enum GetdentResult {
    /// No result. Guests should set this value before calling the hypercall.
    Pending,
    /// Number of bytes written on success.
    Success(NonZeroU64),
    /// End of directory.
    EndOfDirectory,
    /// Error with libc errno.
    Errno(NonZeroU32),
}

impl GetdentResult {
    /// The results that have an encoding: a count must fit in `i64` (and, being a
    /// `NonZeroU64`, is never zero; neither is an errno).
    pub open spec fn spec_valid(self) -> bool {
        match self {
            GetdentResult::Success(c) => 0 < c@ <= i64::MAX,
            GetdentResult::Errno(e) => 0 < e@,
            _ => true,
        }
    }

    /// The number that encodes this result, if there is one: `i64::MAX` for
    /// `Pending`, the count for `Success`, `0` for `EndOfDirectory` and the negated
    /// errno for `Errno`.
    pub open spec fn spec_as_num(self) -> Option<i64> {
        if self.spec_valid() {
            match self {
                GetdentResult::Pending => Some(i64::MAX),
                GetdentResult::Success(c) => Some(c@ as i64),
                GetdentResult::EndOfDirectory => Some(0),
                GetdentResult::Errno(e) => Some((-e@) as i64),
            }
        } else {
            None
        }
    }

    /// The result that the number `n` decodes to: `i64::MAX` is `Pending`, another
    /// positive number is a count, zero is the end of the directory and a negative
    /// number is an errno, taken modulo `2^32`.
    pub open spec fn spec_from(n: i64) -> GetdentResult {
        if n == i64::MAX {
            GetdentResult::Pending
        } else if n > 0 {
            GetdentResult::Success(NonZeroU64::with_value(n as u64))
        } else if n == 0 {
            GetdentResult::EndOfDirectory
        } else {
            GetdentResult::Errno(NonZeroU32::with_value(((-n) % 0x1_0000_0000) as u32))
        }
    }

    /// Decodes a raw return value. A negative number whose negation is a multiple of
    /// `2^32` (among them `i64::MIN`) has no errno in `u32` and is not accepted.
    pub fn from(value: TaggedNumber<i64, GetdentResult>) -> (r: Self)
        requires
            value@ >= 0 || (-value@) % 0x1_0000_0000 != 0,
        ensures
            r == Self::spec_from(value@),
            value@ == i64::MAX ==> r == GetdentResult::Pending,
            0 < value@ < i64::MAX ==> (r matches GetdentResult::Success(c) && c@ == value@),
            value@ == 0 ==> r == GetdentResult::EndOfDirectory,
            value@ < 0 ==> (r matches GetdentResult::Errno(e) && e@ == (-value@) % 0x1_0000_0000),
    {
        let n = value.num;
        if n == i64::MAX {
            GetdentResult::Pending
        } else if n > 0 {
            GetdentResult::Success(NonZeroU64::new(n as u64).unwrap())
        } else if n == 0 {
            GetdentResult::EndOfDirectory
        } else {
            let m: i64 = -n;
            #[verifier::truncate]
            let e: u32 = m as u32;
            assert(e == m % 0x1_0000_0000) by (bit_vector)
                requires
                    m > 0,
                    e == m as u32,
            ;
            GetdentResult::Errno(NonZeroU32::new(e).unwrap())
        }
    }

    /// Attempts to convert this result value into an integer.
    pub fn try_as_num(self) -> (r: Option<TaggedNumber<i64, Self>>)
        ensures
            r is Some <==> self.spec_valid(),
            r matches Some(t) ==> self.spec_as_num() == Some(t@),
            self == GetdentResult::Pending ==> (r matches Some(t) && t@ == i64::MAX),
            self == GetdentResult::EndOfDirectory ==> (r matches Some(t) && t@ == 0),
            self matches GetdentResult::Success(c) ==> (r is Some <==> c@ <= i64::MAX) && (r matches Some(t) ==> t@ == c@),
            self matches GetdentResult::Errno(e) ==> (r matches Some(t) && t@ == -e@),
    {
        match self {
            GetdentResult::Pending => Some(TaggedNumber::new(i64::MAX)),
            GetdentResult::EndOfDirectory => Some(TaggedNumber::new(0)),
            GetdentResult::Success(count) => {
                let c = count.get();
                if c == 0 || c > i64::MAX as u64 {
                    None
                } else {
                    Some(TaggedNumber::new(c as i64))
                }
            },
            GetdentResult::Errno(errno) => Some(TaggedNumber::new(-(errno.get() as i64))),
        }
    }
}

/// Parameters for a `Getdents` hypercall.
#[derive(Debug, Copy, Clone)]
pub struct GetdentParams {
    /// Guest file descriptor of the directory (from `FileOpen` with `O_DIRECTORY`).
    pub fd: i32,
    /// Buffer to write to.
    pub buf: GuestPhysAddr,
    /// Length of the `buf`fer.
    pub len: u64,
    /// Return value of the hypercall.
    pub ret: TaggedNumber<i64, GetdentResult>,
}

/// Result of a `Mkdir` hypercall.
pub type MkdirResult = TristateResult;

/// Parameters for a `Mkdir` hypercall.
#[derive(Debug, Copy, Clone)]
pub struct MkdirParams {
    /// Path to create. Zero terminated C-String.
    pub path: GuestPhysAddr,
    /// Length of the path buffer.
    pub len: u64,
    /// Return value of the hypercall.
    pub ret: TaggedNumber<i32, TristateResult>,
}

/// Which stat-like operation to perform.
#[derive(PartialEq, Eq, Clone, Copy, Debug)]
pub enum StatKind {
    /// Follow symlinks (like `stat(2)`), number 0.
    Stat,
    /// Do not follow symlinks (like `lstat(2)`), number 1.
    LStat,
}

impl StatKind {
    /// The number of the operation.
    pub open spec fn spec_to_u32(self) -> u32 {
        match self {
            StatKind::Stat => 0,
            StatKind::LStat => 1,
        }
    }

    /// The operation whose number is `n`, if there is one.
    pub open spec fn spec_from_u32(n: u32) -> Option<StatKind> {
        if n == 0 {
            Some(StatKind::Stat)
        } else if n == 1 {
            Some(StatKind::LStat)
        } else {
            None
        }
    }
}

impl From<StatKind> for u32 {
    fn from(value: StatKind) -> (r: u32)
        ensures
            r == value.spec_to_u32(),
    {
        match value {
            StatKind::Stat => 0,
            StatKind::LStat => 1,
        }
    }
}

impl vstd::std_specs::convert::FromSpecImpl<StatKind> for u32 {
    open spec fn obeys_from_spec() -> bool {
        true
    }

    open spec fn from_spec(v: StatKind) -> u32 {
        v.spec_to_u32()
    }
}

impl TryFrom<u32> for StatKind {
    type Error = TryFromPrimitiveError<u32>;

    fn try_from(number: u32) -> (r: Result<StatKind, TryFromPrimitiveError<u32>>)
        ensures
            r is Ok <==> StatKind::spec_from_u32(number) is Some,
            r matches Ok(k) ==> StatKind::spec_from_u32(number) == Some(k),
            r matches Err(e) ==> e.number == number,
    {
        if number == 0 {
            Ok(StatKind::Stat)
        } else if number == 1 {
            Ok(StatKind::LStat)
        } else {
            Err(TryFromPrimitiveError { number })
        }
    }
}

impl vstd::std_specs::convert::TryFromSpecImpl<u32> for StatKind {
    open spec fn obeys_try_from_spec() -> bool {
        true
    }

    open spec fn try_from_spec(v: u32) -> Result<StatKind, TryFromPrimitiveError<u32>> {
        match StatKind::spec_from_u32(v) {
            Some(k) => Ok(k),
            None => Err(TryFromPrimitiveError { number: v }),
        }
    }
}

/// Time value used in [`FileAttr`].
#[derive(Debug, Copy, Clone, Default, PartialEq, Eq)]
pub struct Timespec {
    /// Seconds since the Unix epoch.
    pub tv_sec: i64,
    /// Nanoseconds.
    pub tv_nsec: i32,
}

impl Timespec {
    /// The time `secs` seconds and `nsecs` nanoseconds, or `None` when `nsecs` does
    /// not fit in an `i32`. The nanoseconds are kept as they are, not carried into
    /// the seconds.
    pub fn from_nsecs(secs: i64, nsecs: i64) -> (r: Option<Self>)
        ensures
            r is Some <==> i32::MIN <= nsecs <= i32::MAX,
            r matches Some(t) ==> t.tv_sec == secs && t.tv_nsec == nsecs,
    {
        match i32::try_from(nsecs) {
            Ok(nsec) => Some(Timespec { tv_sec: secs, tv_nsec: nsec }),
            Err(_) => None,
        }
    }
}

/// File metadata returned by `FileStat`.
///
/// Holds the same fields, in the same order, as Hermit's `FileAttr`.
#[derive(Debug, Copy, Clone, Default, PartialEq, Eq)]
pub struct FileAttr {
    pub st_dev: u64,
    pub st_ino: u64,
    pub st_nlink: u64,
    /// `st_mode` from POSIX (`S_IFMT` and permission bits).
    pub st_mode: u32,
    pub st_uid: u32,
    pub st_gid: u32,
    pub st_rdev: u64,
    pub st_size: i64,
    pub st_blksize: i64,
    pub st_blocks: i64,
    pub st_atim: Timespec,
    pub st_mtim: Timespec,
    pub st_ctim: Timespec,
}

/// Result of a `FileStat` hypercall.
pub type StatResult = TristateResult;

/// Parameters for a `FileStat` hypercall.
#[derive(Debug, Copy, Clone)]
pub struct StatParams {
    /// Path to stat. Must be a null-terminated UTF-8 string.
    pub name: GuestPhysAddr,
    /// Whether to follow symlinks on the host.
    pub kind: StatKind,
    /// Guest buffer to write the resulting [`FileAttr`] into.
    pub attr: GuestPhysAddr,
    /// Return value of the hypercall.
    pub ret: TaggedNumber<i32, StatResult>,
}

/// Parameters for a `FileFstat` hypercall.
#[derive(Debug, Copy, Clone)]
pub struct FstatParams {
    /// Guest file descriptor (from `FileOpen`).
    pub fd: i32,
    /// Guest buffer to write the resulting [`FileAttr`] into.
    pub attr: GuestPhysAddr,
    /// Return value of the hypercall.
    pub ret: TaggedNumber<i32, StatResult>,
}

/// A raw signed return value of a hypercall, tagged with the result type `T2` that
/// it encodes.
#[derive(Debug, Default, PartialEq, Eq, PartialOrd, Ord, Hash)]
pub struct TaggedNumber<T, T2> {
    pub num: T,
    _phantom: PhantomData<T2>,
}

impl<T: Copy, T2> Clone for TaggedNumber<T, T2> {
    fn clone(&self) -> (r: Self)
        ensures
            r == *self,
    {
        *self
    }
}

impl<T: Copy, T2> Copy for TaggedNumber<T, T2> {

}

impl<T, T2> View for TaggedNumber<T, T2> {
    type V = T;

    closed spec fn view(&self) -> T {
        self.num
    }
}

impl<T, T2> TaggedNumber<T, T2> {
    /// Two tagged numbers are the same exactly when their numbers are.
    pub broadcast proof fn lemma_view_injective(a: Self, b: Self)
        ensures
            #![trigger a@, b@]
            a@ == b@ <==> a == b,
    {
    }

    /// The raw number.
    pub fn num(self) -> (r: T)
        where
            T: Copy,
        ensures
            r == self@,
    {
        self.num
    }

    /// Tags the raw number `num`.
    pub fn new(num: T) -> (r: Self)
        ensures
            r@ == num,
    {
        Self { num, _phantom: PhantomData }
    }
}

/// High-level representation of a 64-bit result.
#[derive(Clone, Copy, Debug, PartialEq, Eq, PartialOrd, Ord, Hash)]
pub enum IoResult64 {
    /// INVARIANT: `Success(x)` has `x` with value `<= i64::MAX as u64`.
    Success(u64),
    /// INVARIANT: `Errno(x)` has `x` with value `<= -(i32::MIN + 1) as u32 + 1`.
    Errno(NonZeroU32),
}

/// High-level representation of a 32-bit result.
#[derive(Clone, Copy, Debug, PartialEq, Eq, PartialOrd, Ord, Hash)]
pub enum IoResult32 {
    /// INVARIANT: `Success(x)` has `x` with value `<= i32::MAX as u64`.
    Success(u32),
    /// INVARIANT: `Errno(x)` has `x` with value `<= -(i32::MIN + 1) as u32 + 1`.
    Errno(NonZeroU32),
}

/// High-level representation of a result that is either nothing yet, success, or an
/// errno.
#[derive(Clone, Copy, Debug, PartialEq, Eq, PartialOrd, Ord, Hash)]
pub enum TristateResult {
    /// No result. Guests should set this value before calling the hypercall.
    Pending,
    /// Data was committed on success.
    Success,
    /// Error with libc errno.
    Errno(NonZeroU32),
}

impl IoResult64 {
    /// The documented invariant of the variants (an errno, being a `NonZeroU32`, is
    /// never zero).
    pub open spec fn spec_valid(self) -> bool {
        match self {
            IoResult64::Success(x) => x <= i64::MAX,
            IoResult64::Errno(e) => 0 < e@ <= MAX_ERRNO,
        }
    }

    /// The number that encodes this result, if there is one: the count for `Success`,
    /// the negated errno for `Errno`.
    pub open spec fn spec_as_num(self) -> Option<i64> {
        if self.spec_valid() {
            match self {
                IoResult64::Success(x) => Some(x as i64),
                IoResult64::Errno(e) => Some((-e@) as i64),
            }
        } else {
            None
        }
    }

    /// The result that the number `n` decodes to: a negative number is an errno,
    /// taken modulo `2^32`; any other number is a count.
    pub open spec fn spec_from(n: i64) -> IoResult64 {
        if n < 0 {
            IoResult64::Errno(NonZeroU32::with_value(((-n) % 0x1_0000_0000) as u32))
        } else {
            IoResult64::Success(n as u64)
        }
    }

    /// Decodes a raw return value. A negative number whose negation is a multiple of
    /// `2^32` (among them `i64::MIN`) has no errno in `u32` and is not accepted.
    pub fn from(value: TaggedNumber<i64, IoResult64>) -> (r: Self)
        requires
            value@ >= 0 || (-value@) % 0x1_0000_0000 != 0,
        ensures
            r == Self::spec_from(value@),
            value@ >= 0 ==> r == IoResult64::Success(value@ as u64),
            value@ < 0 ==> (r matches IoResult64::Errno(e) && e@ == (-value@) % 0x1_0000_0000),
    {
        let n = value.num;
        if n < 0 {
            let m: i64 = -n;
            #[verifier::truncate]
            let e: u32 = m as u32;
            assert(e == m % 0x1_0000_0000) by (bit_vector)
                requires
                    m > 0,
                    e == m as u32,
            ;
            IoResult64::Errno(NonZeroU32::new(e).unwrap())
        } else {
            IoResult64::Success(n as u64)
        }
    }

    /// Attempts to convert this result value into an integer.
    pub fn try_as_num(self) -> (r: Option<TaggedNumber<i64, Self>>)
        ensures
            r is Some <==> self.spec_valid(),
            r matches Some(t) ==> self.spec_as_num() == Some(t@),
            self matches IoResult64::Success(x) ==> (r is Some <==> x <= i64::MAX) && (r matches Some(t) ==> t@ == x),
            self matches IoResult64::Errno(e) ==> (r is Some <==> e@ <= MAX_ERRNO) && (r matches Some(t) ==> t@ == -e@),
    {
        match self {
            IoResult64::Success(x) => {
                if x <= i64::MAX as u64 {
                    Some(TaggedNumber::new(x as i64))
                } else {
                    None
                }
            },
            IoResult64::Errno(x) => {
                let e = x.get();
                if e > MAX_ERRNO {
                    None
                } else {
                    Some(TaggedNumber::new(-((e - 1) as i64) - 1))
                }
            },
        }
    }
}

impl IoResult32 {
    /// The documented invariant of the variants (an errno, being a `NonZeroU32`, is
    /// never zero).
    pub open spec fn spec_valid(self) -> bool {
        match self {
            IoResult32::Success(x) => x <= i32::MAX,
            IoResult32::Errno(e) => 0 < e@ <= MAX_ERRNO,
        }
    }

    /// The number that encodes this result, if there is one: the count for `Success`,
    /// the negated errno for `Errno`.
    pub open spec fn spec_as_num(self) -> Option<i32> {
        if self.spec_valid() {
            match self {
                IoResult32::Success(x) => Some(x as i32),
                IoResult32::Errno(e) => Some((-e@) as i32),
            }
        } else {
            None
        }
    }

    /// The result that the number `n` decodes to: a negative number is an errno,
    /// any other number is a count.
    pub open spec fn spec_from(n: i32) -> IoResult32 {
        if n < 0 {
            IoResult32::Errno(NonZeroU32::with_value((-n) as u32))
        } else {
            IoResult32::Success(n as u32)
        }
    }


    /// Attempts to convert this result value into an integer.
    pub fn try_as_num(self) -> (r: Option<TaggedNumber<i32, Self>>)
        ensures
            r is Some <==> self.spec_valid(),
            r matches Some(t) ==> self.spec_as_num() == Some(t@),
            self matches IoResult32::Success(x) ==> (r is Some <==> x <= i32::MAX) && (r matches Some(t) ==> t@ == x),
            self matches IoResult32::Errno(e) ==> (r is Some <==> e@ <= MAX_ERRNO) && (r matches Some(t) ==> t@ == -e@),
    {
        match self {
            IoResult32::Success(x) => {
                if x <= i32::MAX as u32 {
                    Some(TaggedNumber::new(x as i32))
                } else {
                    None
                }
            },
            IoResult32::Errno(x) => {
                let e = x.get();
                if e > MAX_ERRNO {
                    None
                } else {
                    Some(TaggedNumber::new(-((e - 1) as i32) - 1))
                }
            },
        }
    }
}

impl TristateResult {
    /// The documented invariant of the variants: an errno fits a negative `i32` (and,
    /// being a `NonZeroU32`, is never zero).
    pub open spec fn spec_valid(self) -> bool {
        match self {
            TristateResult::Errno(e) => 0 < e@ <= MAX_ERRNO,
            _ => true,
        }
    }

    /// The number that encodes this result, if there is one: `1` for `Pending`, `0`
    /// for `Success`, the negated errno for `Errno`.
    pub open spec fn spec_as_num(self) -> Option<i32> {
        match self {
            TristateResult::Pending => Some(1),
            TristateResult::Success => Some(0),
            TristateResult::Errno(e) => if 0 < e@ <= MAX_ERRNO {
                Some((-e@) as i32)
            } else {
                None
            },
        }
    }

    /// The result that the number `n` decodes to: every positive number is `Pending`,
    /// zero is `Success` and a negative number is an errno.
    pub open spec fn spec_from(n: i32) -> TristateResult {
        if n > 0 {
            TristateResult::Pending
        } else if n == 0 {
            TristateResult::Success
        } else {
            TristateResult::Errno(NonZeroU32::with_value((-n) as u32))
        }
    }


    /// Attempts to convert this result value into an integer.
    pub fn try_as_num(self) -> (r: Option<TaggedNumber<i32, Self>>)
        ensures
            r is Some <==> self.spec_valid(),
            r matches Some(t) ==> self.spec_as_num() == Some(t@),
            self == TristateResult::Pending ==> (r matches Some(t) && t@ == 1),
            self == TristateResult::Success ==> (r matches Some(t) && t@ == 0),
            self matches TristateResult::Errno(e) ==> (r is Some <==> e@ <= MAX_ERRNO) && (r matches Some(t) ==> t@ == -e@),
    {
        match self {
            TristateResult::Pending => Some(TaggedNumber::new(1)),
            TristateResult::Success => Some(TaggedNumber::new(0)),
            TristateResult::Errno(x) => {
                let e = x.get();
                if e > MAX_ERRNO {
                    None
                } else {
                    Some(TaggedNumber::new(-((e - 1) as i32) - 1))
                }
            },
        }
    }
}

impl From<TaggedNumber<i32, IoResult32>> for IoResult32 {
    /// Decodes a raw return value. The negation is taken in `i64`, so `i32::MIN`
    /// decodes to the errno `2^31`.
    fn from(value: TaggedNumber<i32, IoResult32>) -> (r: Self)
        ensures
            r == Self::spec_from(value@),
            value@ >= 0 ==> r == IoResult32::Success(value@ as u32),
            value@ < 0 ==> (r matches IoResult32::Errno(e) && e@ == -value@),
    {
        let n = value.num;
        if n < 0 {
            IoResult32::Errno(NonZeroU32::new((-(n as i64)) as u32).unwrap())
        } else {
            IoResult32::Success(n as u32)
        }
    }
}

impl vstd::std_specs::convert::FromSpecImpl<TaggedNumber<i32, IoResult32>> for IoResult32 {
    open spec fn obeys_from_spec() -> bool {
        true
    }

    open spec fn from_spec(v: TaggedNumber<i32, IoResult32>) -> IoResult32 {
        IoResult32::spec_from(v@)
    }
}

impl From<TaggedNumber<i32, TristateResult>> for TristateResult {
    /// Decodes a raw return value. The negation is taken in `i64`, so `i32::MIN`
    /// decodes to the errno `2^31`.
    fn from(value: TaggedNumber<i32, TristateResult>) -> (r: Self)
        ensures
            r == Self::spec_from(value@),
            value@ > 0 ==> r == TristateResult::Pending,
            value@ == 0 ==> r == TristateResult::Success,
            value@ < 0 ==> (r matches TristateResult::Errno(e) && e@ == -value@),
    {
        let n = value.num;
        if n > 0 {
            TristateResult::Pending
        } else if let Some(e) = NonZeroU32::new((-(n as i64)) as u32) {
            TristateResult::Errno(e)
        } else {
            TristateResult::Success
        }
    }
}

impl vstd::std_specs::convert::FromSpecImpl<TaggedNumber<i32, TristateResult>> for TristateResult {
    open spec fn obeys_from_spec() -> bool {
        true
    }

    open spec fn from_spec(v: TaggedNumber<i32, TristateResult>) -> TristateResult {
        TristateResult::spec_from(v@)
    }
}

impl Default for TristateResult {
    /// The result before the hypercall: `Pending`.
    fn default() -> (r: Self)
        ensures
            r == TristateResult::Pending,
    {
        TristateResult::Pending
    }
}

impl Default for GetdentResult {
    /// The result before the hypercall: `Pending`.
    fn default() -> (r: Self)
        ensures
            r == GetdentResult::Pending,
    {
        GetdentResult::Pending
    }
}

/// Decoding the number that encodes a 64-bit result gives the result back, and that
/// number is one that `IoResult64::from` accepts.
pub proof fn lemma_io_result64_decode_encode(r: IoResult64)
    requires
        r.spec_valid(),
    ensures
        r.spec_as_num() matches Some(n) && (n >= 0 || (-n) % 0x1_0000_0000 != 0)
            && IoResult64::spec_from(n) == r,
{
}

/// Encoding the result that a number decodes to gives the number back, for every
/// number from `-2^31` up: the errnos that such numbers carry are all encodable.
pub proof fn lemma_io_result64_encode_decode(n: i64)
    requires
        n >= -0x8000_0000,
    ensures
        n >= 0 || (-n) % 0x1_0000_0000 != 0,
        IoResult64::spec_from(n).spec_valid(),
        IoResult64::spec_from(n).spec_as_num() == Some(n),
{
}

/// Distinct 64-bit results are encoded by distinct numbers.
pub proof fn lemma_io_result64_encoding_injective(a: IoResult64, b: IoResult64)
    requires
        a.spec_as_num() is Some,
        a.spec_as_num() == b.spec_as_num(),
    ensures
        a == b,
{
}

/// Decoding the number that encodes a 32-bit result gives the result back.
pub proof fn lemma_io_result32_decode_encode(r: IoResult32)
    requires
        r.spec_valid(),
    ensures
        r.spec_as_num() matches Some(n) && IoResult32::spec_from(n) == r,
{
}

/// Encoding the result that a number decodes to gives the number back.
pub proof fn lemma_io_result32_encode_decode(n: i32)
    ensures
        IoResult32::spec_from(n).spec_valid(),
        IoResult32::spec_from(n).spec_as_num() == Some(n),
{
}

/// Distinct 32-bit results are encoded by distinct numbers.
pub proof fn lemma_io_result32_encoding_injective(a: IoResult32, b: IoResult32)
    requires
        a.spec_as_num() is Some,
        a.spec_as_num() == b.spec_as_num(),
    ensures
        a == b,
{
}

/// Decoding the number that encodes a tristate result gives the result back.
pub proof fn lemma_tristate_result_decode_encode(r: TristateResult)
    requires
        r.spec_valid(),
    ensures
        r.spec_as_num() matches Some(n) && TristateResult::spec_from(n) == r,
{
}

/// Encoding the result that a number decodes to gives the number back, for every
/// number up to `1`: all larger numbers decode to `Pending`, which is encoded as `1`.
pub proof fn lemma_tristate_result_encode_decode(n: i32)
    ensures
        TristateResult::spec_from(n).spec_valid(),
        n <= 1 ==> TristateResult::spec_from(n).spec_as_num() == Some(n),
        n > 1 ==> TristateResult::spec_from(n) == TristateResult::Pending,
{
}

/// Distinct tristate results are encoded by distinct numbers.
pub proof fn lemma_tristate_result_encoding_injective(a: TristateResult, b: TristateResult)
    requires
        a.spec_as_num() is Some,
        a.spec_as_num() == b.spec_as_num(),
    ensures
        a == b,
{
}

/// Decoding the number that encodes a getdents result gives the result back, and
/// that number is one that `GetdentResult::from` accepts. The one exception is a
/// count of `i64::MAX`, whose number is the one of `Pending`.
pub proof fn lemma_getdent_result_decode_encode(r: GetdentResult)
    requires
        r.spec_valid(),
        !(r matches GetdentResult::Success(c) && c@ == i64::MAX),
    ensures
        r.spec_as_num() matches Some(n) && (n >= 0 || (-n) % 0x1_0000_0000 != 0)
            && GetdentResult::spec_from(n) == r,
{
}

/// Encoding the result that a number decodes to gives the number back, for every
/// number whose negation, if it is negative, is an errno that fits in `u32`.
pub proof fn lemma_getdent_result_encode_decode(n: i64)
    requires
        n > -0x1_0000_0000,
    ensures
        n >= 0 || (-n) % 0x1_0000_0000 != 0,
        GetdentResult::spec_from(n).spec_valid(),
        GetdentResult::spec_from(n).spec_as_num() == Some(n),
{
}

/// Distinct getdents results are encoded by distinct numbers, but for `Pending` and
/// a count of `i64::MAX`, which share the number `i64::MAX`.
pub proof fn lemma_getdent_result_encoding_injective(a: GetdentResult, b: GetdentResult)
    requires
        a.spec_as_num() is Some,
        a.spec_as_num() == b.spec_as_num(),
        a.spec_as_num() != Some(i64::MAX),
    ensures
        a == b,
{
}

/// `Pending` and a count of `i64::MAX` are encoded by the same number.
pub proof fn lemma_getdent_result_pending_collides(c: NonZeroU64)
    requires
        c@ == i64::MAX,
    ensures
        GetdentResult::Success(c).spec_as_num() == GetdentResult::Pending.spec_as_num(),
{
}

/// The number of a file type names that file type again.
pub proof fn lemma_file_type_round_trip(t: FileType)
    ensures
        FileType::spec_from_u8(t.spec_to_u8()) == Some(t),
{
}

/// A number that names a file type is that file type's number.
pub proof fn lemma_file_type_number_round_trip(n: u8)
    ensures
        FileType::spec_from_u8(n) matches Some(t) ==> t.spec_to_u8() == n,
{
}

/// The number of a stat operation names that operation again.
pub proof fn lemma_stat_kind_round_trip(k: StatKind)
    ensures
        StatKind::spec_from_u32(k.spec_to_u32()) == Some(k),
{
}

/// A number that names a stat operation is that operation's number.
pub proof fn lemma_stat_kind_number_round_trip(n: u32)
    ensures
        StatKind::spec_from_u32(n) matches Some(k) ==> k.spec_to_u32() == n,
{
}

/// A raw 64-bit value is decoded by its sign alone: every number from `0` up is a
/// count of that size, every negative number an errno, its negation modulo `2^32`.
pub proof fn lemma_io_result64_decodes_by_sign(n: i64)
    ensures
        n >= 0 ==> IoResult64::spec_from(n) == IoResult64::Success(n as u64),
        n < 0 ==> (IoResult64::spec_from(n) matches IoResult64::Errno(e) && e@ == (-n) % 0x1_0000_0000),
{
}

/// A 64-bit result is encoded by its variant: a count within `i64` as itself, an
/// errno within bounds as its negation; so the number is negative exactly for errnos.
pub proof fn lemma_io_result64_encodes_by_variant(r: IoResult64)
    ensures
        r matches IoResult64::Success(x) ==> (x <= i64::MAX ==> (r.spec_as_num() matches Some(n) && n == x)),
        r matches IoResult64::Errno(e) ==> (0 < e@ <= MAX_ERRNO ==> (r.spec_as_num() matches Some(n) && n == -e@)),
        r.spec_as_num() matches Some(n) ==> (n < 0 <==> r is Errno),
{
}

/// A raw 32-bit value is decoded by its sign alone: every number from `0` up is a
/// count (or descriptor) of that size, every negative number the errno `-n`.
pub proof fn lemma_io_result32_decodes_by_sign(n: i32)
    ensures
        n >= 0 ==> IoResult32::spec_from(n) == IoResult32::Success(n as u32),
        n < 0 ==> (IoResult32::spec_from(n) matches IoResult32::Errno(e) && e@ == -n),
{
}

/// A 32-bit result is encoded by its variant: a count within `i32` as itself, an
/// errno within bounds as its negation; so the number is negative exactly for errnos.
pub proof fn lemma_io_result32_encodes_by_variant(r: IoResult32)
    ensures
        r matches IoResult32::Success(x) ==> (x <= i32::MAX ==> (r.spec_as_num() matches Some(n) && n == x)),
        r matches IoResult32::Errno(e) ==> (0 < e@ <= MAX_ERRNO ==> (r.spec_as_num() matches Some(n) && n == -e@)),
        r.spec_as_num() matches Some(n) ==> (n < 0 <==> r is Errno),
{
}

/// A raw tristate value is decoded by its sign alone: positive numbers are
/// `Pending`, zero is `Success`, a negative number is the errno `-n`.
pub proof fn lemma_tristate_result_decodes_by_sign(n: i32)
    ensures
        n > 0 ==> TristateResult::spec_from(n) == TristateResult::Pending,
        n == 0 ==> TristateResult::spec_from(n) == TristateResult::Success,
        n < 0 ==> (TristateResult::spec_from(n) matches TristateResult::Errno(e) && e@ == -n),
{
}

/// A tristate result is encoded by its variant: `Pending` as `1`, `Success` as `0`,
/// an errno within bounds as its negation.
pub proof fn lemma_tristate_result_encodes_by_variant(r: TristateResult)
    ensures
        r == TristateResult::Pending ==> r.spec_as_num() == Some(1i32),
        r == TristateResult::Success ==> r.spec_as_num() == Some(0i32),
        r matches TristateResult::Errno(e) ==> (0 < e@ <= MAX_ERRNO ==> (r.spec_as_num() matches Some(n) && n == -e@)),
        r.spec_as_num() matches Some(n) ==> (n < 0 <==> r is Errno) && (n == 0 <==> r is Success),
{
}

/// A raw getdents value is decoded by its sign and size alone: `i64::MAX` is
/// `Pending`, any other positive number a count of that size, zero the end of the
/// directory, a negative number an errno, its negation modulo `2^32`.
pub proof fn lemma_getdent_result_decodes_by_sign(n: i64)
    ensures
        n == i64::MAX ==> GetdentResult::spec_from(n) == GetdentResult::Pending,
        0 < n < i64::MAX ==> (GetdentResult::spec_from(n) matches GetdentResult::Success(c) && c@ == n),
        n == 0 ==> GetdentResult::spec_from(n) == GetdentResult::EndOfDirectory,
        n < 0 ==> (GetdentResult::spec_from(n) matches GetdentResult::Errno(e) && e@ == (-n) % 0x1_0000_0000),
{
}

/// A getdents result is encoded by its variant: `Pending` as `i64::MAX`, the end of
/// the directory as `0`, a count within `i64` as itself, an errno as its negation.
pub proof fn lemma_getdent_result_encodes_by_variant(r: GetdentResult)
    ensures
        r == GetdentResult::Pending ==> r.spec_as_num() == Some(i64::MAX),
        r == GetdentResult::EndOfDirectory ==> r.spec_as_num() == Some(0i64),
        r matches GetdentResult::Success(c) ==> (0 < c@ <= i64::MAX ==> (r.spec_as_num() matches Some(n) && n == c@)),
        r matches GetdentResult::Errno(e) ==> (0 < e@ ==> (r.spec_as_num() matches Some(n) && n == -e@)),
        r.spec_as_num() matches Some(n) ==> (n < 0 <==> r is Errno) && (n == 0 <==> r is EndOfDirectory),
{
}

} // verus!
