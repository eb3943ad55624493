use instar::preallocation::{
    apply_preallocation, preallocate_file, preallocation_error, wrote_nothing_message, FillError,
    FillStep, Preallocation, ZeroFill, ZERO_CHUNK,
};

/// Zeroes a range of `file`, answering the request to zero it at once with
/// `zero_range`.
fn fill_zeros<F: FnMut(u64, u64) -> Result<(), Option<i32>>>(
    file: &mut Vec<u8>,
    offset: u64,
    length: u64,
    mut zero_range: F,
) -> Result<(), FillError> {
    let mut fill = ZeroFill::new(offset, length);
    loop {
        match fill.next() {
            FillStep::Done => return Ok(()),
            FillStep::ZeroRange { offset, length } => fill.asked(zero_range(offset, length))?,
            FillStep::WriteZeros { offset, length } => {
                let end = (offset + length) as usize;
                if file.len() < end {
                    file.resize(end, 0);
                }
                for b in &mut file[offset as usize..end] {
                    *b = 0;
                }
                fill.wrote(Ok(length))?;
            }
        }
    }
}

#[test]
fn fill_zeros_inner_fast_path() {
    let mut file = Vec::new();
    let mut called = false;
    let result = fill_zeros(&mut file, 0, 4096, |off, len| {
        called = true;
        assert_eq!(off, 0);
        assert_eq!(len, 4096);
        Ok(())
    });
    assert!(result.is_ok());
    assert!(called);
    assert_eq!(file.len(), 0);
}

#[test]
fn fill_zeros_inner_eopnotsupp_falls_back_to_pwrite() {
    let mut buf = vec![0xAAu8; 8192];
    let result = fill_zeros(&mut buf, 1024, 4096, |_off, _len| Err(Some(libc::EOPNOTSUPP)));
    assert!(result.is_ok());
    assert!(buf[..1024].iter().all(|&b| b == 0xAA));
    assert!(buf[1024..5120].iter().all(|&b| b == 0));
    assert!(buf[5120..].iter().all(|&b| b == 0xAA));
}

#[test]
fn fill_zeros_inner_unrelated_error_propagates() {
    let mut file = Vec::new();
    let result = fill_zeros(&mut file, 0, 4096, |_off, _len| Err(Some(libc::EIO)));
    let err = result.expect_err("EIO should propagate");
    assert!(matches!(err, FillError::System(Some(libc::EIO))));
    assert_eq!(file.len(), 0);
}

#[test]
fn fill_zeros_inner_zero_length_is_noop() {
    let mut file = Vec::new();
    let mut called = false;
    let result = fill_zeros(&mut file, 0, 0, |_off, _len| {
        called = true;
        Ok(())
    });
    assert!(result.is_ok());
    assert!(!called, "zero-length call must short-circuit");
}

#[test]
fn every_unsupported_answer_falls_back() {
    for code in [libc::EOPNOTSUPP, libc::ENOSYS, libc::EINVAL] {
        let mut file = vec![1u8; 16];
        assert!(fill_zeros(&mut file, 4, 8, |_off, _len| Err(Some(code))).is_ok());
        assert_eq!(file, [1, 1, 1, 1, 0, 0, 0, 0, 0, 0, 0, 0, 1, 1, 1, 1]);
    }
    let mut file = Vec::new();
    let unnamed = fill_zeros(&mut file, 0, 8, |_off, _len| Err(None));
    assert!(matches!(unnamed, Err(FillError::System(None))));
}

#[test]
fn zeros_are_written_in_chunks() {
    let mut fill = ZeroFill::new(10, ZERO_CHUNK + 5);
    fill.asked(Err(Some(libc::ENOSYS))).unwrap();
    match fill.next() {
        FillStep::WriteZeros { offset, length } => assert_eq!((offset, length), (10, ZERO_CHUNK)),
        _ => panic!("expected a write"),
    }
    fill.wrote(Ok(ZERO_CHUNK - 3)).unwrap();
    match fill.next() {
        FillStep::WriteZeros { offset, length } => {
            assert_eq!((offset, length), (10 + ZERO_CHUNK - 3, 8))
        }
        _ => panic!("expected a write"),
    }
    fill.wrote(Ok(8)).unwrap();
    assert!(matches!(fill.next(), FillStep::Done));
}

#[test]
fn an_empty_or_failed_write_ends_the_fill() {
    let mut fill = ZeroFill::new(0, 8);
    fill.asked(Err(Some(libc::EINVAL))).unwrap();
    assert!(matches!(fill.wrote(Ok(0)), Err(FillError::WroteNothing)));
    assert_eq!(wrote_nothing_message(), "pwrite returned 0 during zero-fill");
    let mut fill = ZeroFill::new(0, 8);
    fill.asked(Err(Some(libc::EINVAL))).unwrap();
    assert!(matches!(
        fill.wrote(Err(Some(libc::ENOSPC))),
        Err(FillError::System(Some(libc::ENOSPC)))
    ));
}

#[test]
fn modes_choose_what_is_preallocated() {
    assert!(matches!(preallocate_file("off", 100), Preallocation::Nothing));
    assert!(matches!(
        preallocate_file("falloc", 100),
        Preallocation::Reserve { offset: 0, length: 100 }
    ));
    assert!(matches!(
        preallocate_file("full", 100),
        Preallocation::Zero { offset: 0, length: 100 }
    ));
    assert!(matches!(
        preallocate_file("falloc", 0),
        Preallocation::Reserve { offset: 0, length: 0 }
    ));
    assert!(matches!(
        apply_preallocation("falloc", 7, 100),
        Preallocation::Reserve { offset: 7, length: 100 }
    ));
    assert!(matches!(
        apply_preallocation("full", 7, 100),
        Preallocation::Zero { offset: 7, length: 100 }
    ));
    assert!(matches!(apply_preallocation("metadata", 7, 100), Preallocation::Nothing));
    assert!(matches!(apply_preallocation("falloc", 7, 0), Preallocation::Nothing));
}

#[test]
fn failed_preallocation_names_the_call() {
    assert_eq!(
        preallocation_error("create", false, "disk full"),
        "create: posix_fallocate failed: disk full"
    );
    assert_eq!(
        preallocation_error("resize", true, "disk full"),
        "resize: zero-fill failed: disk full"
    );
}
