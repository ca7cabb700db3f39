use uhyve_interface::parameters::{
    IoResult32, IoResult64, NonZeroU32, TaggedNumber, TristateResult, ALLOWED_OPEN_FLAGS,
    MAX_ERRNO,
};

#[test]
fn test_io_result64_errno_i64_min() {
    const MAX_ERR_NUM: u32 = (-(i32::MIN + 1)) as u32 + 1;
    assert_eq!(
        IoResult64::Errno(NonZeroU32::new(MAX_ERR_NUM - 1).unwrap()).try_as_num(),
        Some((i32::MIN + 1) as i64).map(TaggedNumber::new)
    );
    assert_eq!(
        IoResult64::Errno(NonZeroU32::new(MAX_ERR_NUM).unwrap()).try_as_num(),
        Some(i32::MIN as i64).map(TaggedNumber::new)
    );
    assert_eq!(
        IoResult64::Errno(NonZeroU32::new(MAX_ERR_NUM + 1).unwrap()).try_as_num(),
        None
    );
}

#[test]
fn test_io_result64_ok_i64_max() {
    assert_eq!(
        IoResult64::Success(i64::MAX as u64).try_as_num(),
        Some(i64::MAX).map(TaggedNumber::new)
    );
    assert_eq!(IoResult64::Success(i64::MAX as u64 + 1).try_as_num(), None);
}

#[test]
fn test_io_result32_errno_i32_min() {
    const MAX_ERR_NUM: u32 = (-(i32::MIN + 1)) as u32 + 1;
    assert_eq!(
        IoResult32::Errno(NonZeroU32::new(MAX_ERR_NUM - 1).unwrap()).try_as_num(),
        Some(i32::MIN + 1).map(TaggedNumber::new)
    );
    assert_eq!(
        IoResult32::Errno(NonZeroU32::new(MAX_ERR_NUM).unwrap()).try_as_num(),
        Some(i32::MIN).map(TaggedNumber::new)
    );
    assert_eq!(
        IoResult32::Errno(NonZeroU32::new(MAX_ERR_NUM + 1).unwrap()).try_as_num(),
        None
    );
}

#[test]
fn test_io_result32_ok_i32_max() {
    assert_eq!(
        IoResult32::Success(i32::MAX as u32).try_as_num(),
        Some(i32::MAX).map(TaggedNumber::new)
    );
    assert_eq!(IoResult32::Success(i32::MAX as u32 + 1).try_as_num(), None);
}

#[test]
fn test_tristate_result_errno_i32_min() {
    const MAX_ERR_NUM: u32 = (-(i32::MIN + 1)) as u32 + 1;
    assert_eq!(
        TristateResult::Errno(NonZeroU32::new(MAX_ERR_NUM - 1).unwrap()).try_as_num(),
        Some(i32::MIN + 1).map(TaggedNumber::new)
    );
    assert_eq!(
        TristateResult::Errno(NonZeroU32::new(MAX_ERR_NUM).unwrap()).try_as_num(),
        Some(i32::MIN).map(TaggedNumber::new)
    );
    assert_eq!(
        TristateResult::Errno(NonZeroU32::new(MAX_ERR_NUM + 1).unwrap()).try_as_num(),
        None
    );
}

fn errno(n: u32) -> NonZeroU32 {
    NonZeroU32::new(n).unwrap()
}

#[test]
fn allowed_open_flags_are_hermits_flags() {
    assert_eq!(
        ALLOWED_OPEN_FLAGS,
        hermit_abi::O_RDONLY
            | hermit_abi::O_WRONLY
            | hermit_abi::O_RDWR
            | hermit_abi::O_CREAT
            | hermit_abi::O_EXCL
            | hermit_abi::O_TRUNC
            | hermit_abi::O_APPEND
            | hermit_abi::O_DIRECTORY
    );
    assert_eq!(ALLOWED_OPEN_FLAGS & hermit_abi::O_NONBLOCK, 0);
}

#[test]
fn tagged_number_num_reads_back() {
    let t: TaggedNumber<i64, IoResult64> = TaggedNumber::new(-4096);
    assert_eq!(t.num(), -4096);
    let r: IoResult32 = TaggedNumber::new(-3).into();
    assert_eq!(r, IoResult32::Errno(errno(3)));
    let s: TristateResult = TaggedNumber::new(0).into();
    assert_eq!(s, TristateResult::Success);
}

#[test]
fn max_errno_is_negated_i32_min() {
    assert_eq!(MAX_ERRNO as i64, -(i32::MIN as i64));
}

#[test]
fn io_result64_from_decodes_sign() {
    assert_eq!(IoResult64::from(TaggedNumber::new(0)), IoResult64::Success(0));
    assert_eq!(IoResult64::from(TaggedNumber::new(4096)), IoResult64::Success(4096));
    assert_eq!(
        IoResult64::from(TaggedNumber::new(i64::MAX)),
        IoResult64::Success(i64::MAX as u64)
    );
    assert_eq!(IoResult64::from(TaggedNumber::new(-2)), IoResult64::Errno(errno(2)));
    // A negative number beyond the u32 range keeps the low 32 bits of its negation.
    assert_eq!(
        IoResult64::from(TaggedNumber::new(-((1i64 << 32) + 5))),
        IoResult64::Errno(errno(5))
    );
}

#[test]
fn io_result64_round_trips() {
    for r in [
        IoResult64::Success(0),
        IoResult64::Success(17),
        IoResult64::Success(i64::MAX as u64),
        IoResult64::Errno(errno(1)),
        IoResult64::Errno(errno(MAX_ERRNO)),
    ] {
        let t = r.try_as_num().unwrap();
        assert_eq!(IoResult64::from(t), r);
    }
    for n in [0i64, 1, 99, i64::MAX, -1, -22, i32::MIN as i64] {
        assert_eq!(IoResult64::from(TaggedNumber::new(n)).try_as_num(), Some(TaggedNumber::new(n)));
    }
}

#[test]
fn io_result64_beyond_invariant_has_no_number() {
    assert_eq!(IoResult64::Success(u64::MAX).try_as_num(), None);
    assert_eq!(IoResult64::Errno(errno(u32::MAX)).try_as_num(), None);
    // -(2^31 + 1) decodes to an errno above the documented bound.
    assert_eq!(
        IoResult64::from(TaggedNumber::new(-(MAX_ERRNO as i64) - 1)).try_as_num(),
        None
    );
}

#[test]
fn io_result32_from_decodes_sign() {
    assert_eq!(IoResult32::from(TaggedNumber::new(0)), IoResult32::Success(0));
    assert_eq!(IoResult32::from(TaggedNumber::new(3)), IoResult32::Success(3));
    assert_eq!(
        IoResult32::from(TaggedNumber::new(i32::MAX)),
        IoResult32::Success(i32::MAX as u32)
    );
    assert_eq!(IoResult32::from(TaggedNumber::new(-9)), IoResult32::Errno(errno(9)));
    assert_eq!(
        IoResult32::from(TaggedNumber::new(i32::MIN + 1)),
        IoResult32::Errno(errno(MAX_ERRNO - 1))
    );
    assert_eq!(
        IoResult32::from(TaggedNumber::new(i32::MIN)),
        IoResult32::Errno(errno(MAX_ERRNO))
    );
}

#[test]
fn io_result32_round_trips() {
    for r in [
        IoResult32::Success(0),
        IoResult32::Success(5),
        IoResult32::Success(i32::MAX as u32),
        IoResult32::Errno(errno(2)),
        IoResult32::Errno(errno(MAX_ERRNO - 1)),
        IoResult32::Errno(errno(MAX_ERRNO)),
    ] {
        let t = r.try_as_num().unwrap();
        assert_eq!(IoResult32::from(t), r);
    }
    for n in [0i32, 1, i32::MAX, -1, -13, i32::MIN + 1, i32::MIN] {
        assert_eq!(IoResult32::from(TaggedNumber::new(n)).try_as_num(), Some(TaggedNumber::new(n)));
    }
}

#[test]
fn io_result32_distinct_results_distinct_numbers() {
    assert_ne!(
        IoResult32::Success(1).try_as_num(),
        IoResult32::Errno(errno(1)).try_as_num()
    );
    assert_ne!(
        IoResult32::Errno(errno(1)).try_as_num(),
        IoResult32::Errno(errno(2)).try_as_num()
    );
}

#[test]
fn tristate_result_encodings() {
    assert_eq!(TristateResult::Pending.try_as_num(), Some(TaggedNumber::new(1)));
    assert_eq!(TristateResult::Success.try_as_num(), Some(TaggedNumber::new(0)));
    assert_eq!(TristateResult::Errno(errno(2)).try_as_num(), Some(TaggedNumber::new(-2)));
    assert_eq!(TristateResult::default(), TristateResult::Pending);
}

#[test]
fn tristate_result_from_decodes_sign() {
    assert_eq!(TristateResult::from(TaggedNumber::new(1)), TristateResult::Pending);
    assert_eq!(TristateResult::from(TaggedNumber::new(i32::MAX)), TristateResult::Pending);
    assert_eq!(TristateResult::from(TaggedNumber::new(0)), TristateResult::Success);
    assert_eq!(TristateResult::from(TaggedNumber::new(-17)), TristateResult::Errno(errno(17)));
}

#[test]
fn tristate_result_round_trips() {
    for r in [
        TristateResult::Pending,
        TristateResult::Success,
        TristateResult::Errno(errno(1)),
        TristateResult::Errno(errno(MAX_ERRNO - 1)),
        TristateResult::Errno(errno(MAX_ERRNO)),
    ] {
        let t = r.try_as_num().unwrap();
        assert_eq!(TristateResult::from(t), r);
    }
    for n in [1i32, 0, -1, -40, i32::MIN + 1, i32::MIN] {
        assert_eq!(
            TristateResult::from(TaggedNumber::new(n)).try_as_num(),
            Some(TaggedNumber::new(n))
        );
    }
    // Every larger positive number decodes to `Pending`, which encodes as 1.
    assert_eq!(
        TristateResult::from(TaggedNumber::new(7)).try_as_num(),
        Some(TaggedNumber::new(1))
    );
}

#[test]
fn nonzero_rejects_zero() {
    assert!(NonZeroU32::new(0).is_none());
    assert_eq!(NonZeroU32::new(7).unwrap().get(), 7);
    assert!(uhyve_interface::parameters::NonZeroU64::new(0).is_none());
    assert_eq!(uhyve_interface::parameters::NonZeroU64::new(u64::MAX).unwrap().get(), u64::MAX);
}
