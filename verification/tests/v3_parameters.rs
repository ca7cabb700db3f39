use uhyve_interface::gdb::resume::ResumeMode;
use uhyve_interface::v3::parameters::{
    CloseParams, FileAttr, FileType, GetdentParams, GetdentResult, IoResult32, IoResult64,
    MkdirParams, NonZeroU32, NonZeroU64, StatKind, StatParams, TaggedNumber, Timespec,
    TristateResult, TryFromPrimitiveError, MAX_ERRNO,
};

#[test]
fn parameters_test_io_result64_errno_i64_min() {
    const MAX_ERR_NUM: u32 = (-(i32::MIN + 1)) as u32 + 1;
    assert_eq!(
        IoResult64::Errno(NonZeroU32::new(MAX_ERR_NUM - 1).unwrap()).try_as_num(),
        Some((i32::MIN + 1) as i64).map(TaggedNumber::new)
    );
    assert_eq!(
        IoResult64::Errno(NonZeroU32::new(MAX_ERR_NUM).unwrap()).try_as_num(),
        Some(i32::MIN as i64).map(TaggedNumber::new)
    );
    assert_eq!(
        IoResult64::Errno(NonZeroU32::new(MAX_ERR_NUM + 1).unwrap()).try_as_num(),
        None
    );
}

#[test]
fn parameters_test_io_result64_ok_i64_max() {
    assert_eq!(
        IoResult64::Success(i64::MAX as u64).try_as_num(),
        Some(i64::MAX).map(TaggedNumber::new)
    );
    assert_eq!(IoResult64::Success(i64::MAX as u64 + 1).try_as_num(), None);
}

#[test]
fn parameters_test_io_result32_errno_i32_min() {
    const MAX_ERR_NUM: u32 = (-(i32::MIN + 1)) as u32 + 1;
    assert_eq!(
        IoResult32::Errno(NonZeroU32::new(MAX_ERR_NUM - 1).unwrap()).try_as_num(),
        Some(i32::MIN + 1).map(TaggedNumber::new)
    );
    assert_eq!(
        IoResult32::Errno(NonZeroU32::new(MAX_ERR_NUM).unwrap()).try_as_num(),
        Some(i32::MIN).map(TaggedNumber::new)
    );
    assert_eq!(
        IoResult32::Errno(NonZeroU32::new(MAX_ERR_NUM + 1).unwrap()).try_as_num(),
        None
    );
}

#[test]
fn parameters_test_io_result32_ok_i32_max() {
    assert_eq!(
        IoResult32::Success(i32::MAX as u32).try_as_num(),
        Some(i32::MAX).map(TaggedNumber::new)
    );
    assert_eq!(IoResult32::Success(i32::MAX as u32 + 1).try_as_num(), None);
}

#[test]
fn parameters_test_tristate_result_errno_i32_min() {
    const MAX_ERR_NUM: u32 = (-(i32::MIN + 1)) as u32 + 1;
    assert_eq!(
        TristateResult::Errno(NonZeroU32::new(MAX_ERR_NUM - 1).unwrap()).try_as_num(),
        Some(i32::MIN + 1).map(TaggedNumber::new)
    );
    assert_eq!(
        TristateResult::Errno(NonZeroU32::new(MAX_ERR_NUM).unwrap()).try_as_num(),
        Some(i32::MIN).map(TaggedNumber::new)
    );
    assert_eq!(
        TristateResult::Errno(NonZeroU32::new(MAX_ERR_NUM + 1).unwrap()).try_as_num(),
        None
    );
}

fn errno(n: u32) -> NonZeroU32 {
    NonZeroU32::new(n).unwrap()
}

fn count(n: u64) -> NonZeroU64 {
    NonZeroU64::new(n).unwrap()
}

#[test]
fn tagged_number_new_keeps_the_number() {
    let t: TaggedNumber<i32, TristateResult> = TaggedNumber::new(-5);
    assert_eq!(t.num, -5);
    assert_eq!(t.num(), -5);
    let u = t;
    assert_eq!(u, t.clone());
}

#[test]
fn v3_io_results_round_trip() {
    for n in [0i64, 8, i64::MAX, -1, i32::MIN as i64] {
        assert_eq!(IoResult64::from(TaggedNumber::new(n)).try_as_num(), Some(TaggedNumber::new(n)));
    }
    for n in [0i32, 8, i32::MAX, -1, i32::MIN + 1, i32::MIN] {
        assert_eq!(IoResult32::from(TaggedNumber::new(n)).try_as_num(), Some(TaggedNumber::new(n)));
    }
    for n in [1i32, 0, -4, i32::MIN] {
        assert_eq!(
            TristateResult::from(TaggedNumber::new(n)).try_as_num(),
            Some(TaggedNumber::new(n))
        );
    }
    assert_eq!(
        IoResult64::from(TaggedNumber::new(-(1i64 << 32) - 3)),
        IoResult64::Errno(errno(3))
    );
    assert_eq!(TristateResult::from(TaggedNumber::new(2)), TristateResult::Pending);
    assert_eq!(
        TristateResult::from(TaggedNumber::new(i32::MIN)),
        TristateResult::Errno(errno(MAX_ERRNO))
    );
    assert_eq!(IoResult32::Errno(errno(MAX_ERRNO)).try_as_num(), Some(TaggedNumber::new(i32::MIN)));
}

#[test]
fn getdent_result_encodings() {
    assert_eq!(GetdentResult::Pending.try_as_num(), Some(TaggedNumber::new(i64::MAX)));
    assert_eq!(GetdentResult::EndOfDirectory.try_as_num(), Some(TaggedNumber::new(0)));
    assert_eq!(GetdentResult::Success(count(24)).try_as_num(), Some(TaggedNumber::new(24)));
    assert_eq!(GetdentResult::Errno(errno(9)).try_as_num(), Some(TaggedNumber::new(-9)));
    assert_eq!(
        GetdentResult::Errno(errno(u32::MAX)).try_as_num(),
        Some(TaggedNumber::new(-(u32::MAX as i64)))
    );
    assert_eq!(GetdentResult::Success(count(i64::MAX as u64 + 1)).try_as_num(), None);
    assert_eq!(GetdentResult::default(), GetdentResult::Pending);
}

#[test]
fn getdent_result_from_decodes() {
    assert_eq!(GetdentResult::from(TaggedNumber::new(i64::MAX)), GetdentResult::Pending);
    assert_eq!(GetdentResult::from(TaggedNumber::new(0)), GetdentResult::EndOfDirectory);
    assert_eq!(GetdentResult::from(TaggedNumber::new(1)), GetdentResult::Success(count(1)));
    assert_eq!(
        GetdentResult::from(TaggedNumber::new(i64::MAX - 1)),
        GetdentResult::Success(count(i64::MAX as u64 - 1))
    );
    assert_eq!(GetdentResult::from(TaggedNumber::new(-2)), GetdentResult::Errno(errno(2)));
    assert_eq!(
        GetdentResult::from(TaggedNumber::new(-(1i64 << 32) - 7)),
        GetdentResult::Errno(errno(7))
    );
}

#[test]
fn getdent_result_round_trips() {
    for r in [
        GetdentResult::Pending,
        GetdentResult::EndOfDirectory,
        GetdentResult::Success(count(1)),
        GetdentResult::Success(count(i64::MAX as u64 - 1)),
        GetdentResult::Errno(errno(1)),
        GetdentResult::Errno(errno(u32::MAX)),
    ] {
        let t = r.try_as_num().unwrap();
        assert_eq!(GetdentResult::from(t), r);
    }
    for n in [i64::MAX, 0, 1, 1000, -1, -(u32::MAX as i64)] {
        assert_eq!(
            GetdentResult::from(TaggedNumber::new(n)).try_as_num(),
            Some(TaggedNumber::new(n))
        );
    }
}

#[test]
fn getdent_result_pending_and_largest_count_collide() {
    let largest = GetdentResult::Success(count(i64::MAX as u64));
    assert_eq!(largest.try_as_num(), GetdentResult::Pending.try_as_num());
    assert_eq!(GetdentResult::from(largest.try_as_num().unwrap()), GetdentResult::Pending);
}

#[test]
fn file_type_numbers() {
    let all = [
        (FileType::Unknown, 0u8),
        (FileType::Fifo, 1),
        (FileType::CharacterDevice, 2),
        (FileType::Directory, 4),
        (FileType::BlockDevice, 6),
        (FileType::RegularFile, 8),
        (FileType::SymbolicLink, 10),
        (FileType::Socket, 12),
        (FileType::Whiteout, 14),
    ];
    for (t, n) in all {
        assert_eq!(u8::from(t), n);
        assert_eq!(FileType::try_from(n), Ok(t));
    }
    for n in [3u8, 5, 7, 9, 11, 13, 15, 255] {
        assert_eq!(FileType::try_from(n), Err(TryFromPrimitiveError { number: n }));
    }
}

#[test]
fn stat_kind_numbers() {
    assert_eq!(u32::from(StatKind::Stat), 0);
    assert_eq!(u32::from(StatKind::LStat), 1);
    assert_eq!(StatKind::try_from(0u32), Ok(StatKind::Stat));
    assert_eq!(StatKind::try_from(1u32), Ok(StatKind::LStat));
    assert_eq!(StatKind::try_from(2u32), Err(TryFromPrimitiveError { number: 2 }));
}

#[test]
fn timespec_from_nsecs() {
    assert_eq!(
        Timespec::from_nsecs(12, 500),
        Some(Timespec { tv_sec: 12, tv_nsec: 500 })
    );
    assert_eq!(
        Timespec::from_nsecs(-1, i32::MIN as i64),
        Some(Timespec { tv_sec: -1, tv_nsec: i32::MIN })
    );
    assert_eq!(
        Timespec::from_nsecs(0, 2_000_000_000),
        Some(Timespec { tv_sec: 0, tv_nsec: 2_000_000_000 })
    );
    assert_eq!(Timespec::from_nsecs(0, i32::MAX as i64 + 1), None);
    assert_eq!(Timespec::from_nsecs(0, i32::MIN as i64 - 1), None);
}

#[test]
fn parameter_blocks_hold_their_fields() {
    let close = CloseParams { fd: 3, ret: TaggedNumber::new(1) };
    assert_eq!(TristateResult::from(close.ret), TristateResult::Pending);
    let mkdir = MkdirParams { path: 0x1000, len: 5, ret: TaggedNumber::new(-17) };
    assert_eq!(TristateResult::from(mkdir.ret), TristateResult::Errno(errno(17)));
    let stat = StatParams {
        name: 0x2000,
        kind: StatKind::LStat,
        attr: 0x3000,
        ret: TaggedNumber::new(0),
    };
    assert_eq!(stat.kind, StatKind::LStat);
    let getdents = GetdentParams { fd: 4, buf: 0x4000, len: 64, ret: TaggedNumber::new(32) };
    assert_eq!(GetdentResult::from(getdents.ret), GetdentResult::Success(count(32)));
    assert_eq!(FileAttr::default().st_atim, Timespec::default());
}

#[test]
fn resume_modes_are_distinct() {
    assert_ne!(ResumeMode::Stopped, ResumeMode::Step);
    assert_ne!(ResumeMode::Step, ResumeMode::Freewheel);
}
