use zeroize_lock::backend::{BackendInitializer, InitOutcome};
use zeroize_lock::error::MemError;
use zeroize_lock::facade::{
    lock_step, lock_verdict, unlock_step, unlock_verdict, Step, UnlockAnswer,
};
use zeroize_lock::scrub::zeroize;
use zeroize_lock::view::{resolve, Access, BufferKind, Layout, Probe, ResolvedView};

fn writable(len: usize) -> Layout {
    Layout { contiguous: true, writable: true, len }
}

fn array_probe(len: usize) -> Probe {
    Probe { resizable: None, fixed_array: Some(writable(len)), protocol: None, immutable: None }
}

fn nothing() -> Probe {
    Probe { resizable: None, fixed_array: None, protocol: None, immutable: None }
}

fn bytes_only(len: usize) -> Probe {
    Probe {
        immutable: Some(Layout { contiguous: true, writable: false, len }),
        ..nothing()
    }
}

#[test]
fn test_zeroize() {
    let mut arr = [1, 2, 3, 4, 5];
    zeroize(&mut arr);
    assert_eq!(arr, [0, 0, 0, 0, 0]);
}

#[test]
fn test_mlock() {
    let sizes_mb = [0.03125, 0.0625, 0.125, 0.25, 0.5, 1.0, 2.0, 4.0, 4.42];
    let gate = BackendInitializer::without_init();
    for size in sizes_mb {
        println!("Check for size {size} MB");
        let arr = vec![0u8; (size * 1024.0 * 1024.0) as usize];
        let probe = array_probe(arr.len());
        let view = ResolvedView { kind: BufferKind::FixedArray, len: arr.len() };
        assert_eq!(lock_step(&gate, &probe), Step::CallSystem(view));
        assert_eq!(lock_verdict(true), Ok(()));
        assert_eq!(unlock_step(&probe), Step::CallSystem(view));
        assert_eq!(unlock_verdict(UnlockAnswer::Accepted), Ok(()));
    }
}

#[test]
fn zeroize_clears_every_supported_length() {
    for len in [0usize, 1, 4096, 4096 * 4096] {
        let mut buf: Vec<u8> = (0..len).map(|i| (i % 251) as u8 + 1).collect();
        zeroize(&mut buf);
        assert_eq!(buf.len(), len);
        assert!(buf.iter().all(|b| *b == 0));
    }
}

#[test]
fn zeroize_twice_equals_once() {
    let mut once = vec![9u8, 8, 7, 255, 0, 3];
    let mut twice = once.clone();
    zeroize(&mut once);
    zeroize(&mut twice);
    zeroize(&mut twice);
    assert_eq!(once, twice);
    assert_eq!(once, vec![0u8; 6]);
}

#[test]
fn zeroize_empty_is_noop() {
    let mut buf: [u8; 0] = [];
    zeroize(&mut buf);
    assert_eq!(buf.len(), 0);
}

#[test]
fn immutable_bytes_refused_for_writing() {
    let p = bytes_only(5);
    assert_eq!(resolve(&p, Access::Write), Err(MemError::Unsupported));
    assert_eq!(
        resolve(&p, Access::ReadOnly),
        Ok(ResolvedView { kind: BufferKind::ImmutableBytes, len: 5 })
    );
    let gate = BackendInitializer::without_init();
    assert_eq!(lock_step(&gate, &p), Step::Fail(MemError::Unsupported));
    assert_eq!(unlock_step(&p), Step::Fail(MemError::Unsupported));
}

#[test]
fn non_buffer_value_refused() {
    let p = nothing();
    assert_eq!(resolve(&p, Access::Write), Err(MemError::Unsupported));
    assert_eq!(resolve(&p, Access::ReadOnly), Err(MemError::Unsupported));
    let gate = BackendInitializer::without_init();
    assert_eq!(lock_step(&gate, &p), Step::Fail(MemError::Unsupported));
    assert_eq!(unlock_step(&p), Step::Fail(MemError::Unsupported));
}

#[test]
fn resolution_follows_priority_order() {
    let all = Probe {
        resizable: Some(writable(3)),
        fixed_array: Some(writable(4)),
        protocol: Some(writable(5)),
        immutable: None,
    };
    assert_eq!(
        resolve(&all, Access::Write),
        Ok(ResolvedView { kind: BufferKind::ResizableBytes, len: 3 })
    );
    let no_resizable = Probe { resizable: None, ..all };
    assert_eq!(
        resolve(&no_resizable, Access::Write),
        Ok(ResolvedView { kind: BufferKind::FixedArray, len: 4 })
    );
    let protocol_only = Probe { resizable: None, fixed_array: None, ..all };
    assert_eq!(
        resolve(&protocol_only, Access::Write),
        Ok(ResolvedView { kind: BufferKind::BufferProtocol, len: 5 })
    );
}

#[test]
fn protocol_buffer_must_be_contiguous_and_writable() {
    let scattered = Probe {
        protocol: Some(Layout { contiguous: false, writable: true, len: 8 }),
        ..nothing()
    };
    assert_eq!(resolve(&scattered, Access::Write), Err(MemError::Unsupported));
    assert_eq!(resolve(&scattered, Access::ReadOnly), Err(MemError::Unsupported));
    let read_only = Probe {
        protocol: Some(Layout { contiguous: true, writable: false, len: 8 }),
        immutable: Some(writable(2)),
        ..nothing()
    };
    assert_eq!(resolve(&read_only, Access::Write), Err(MemError::Unsupported));
    assert_eq!(
        resolve(&read_only, Access::ReadOnly),
        Ok(ResolvedView { kind: BufferKind::BufferProtocol, len: 8 })
    );
}

#[test]
fn lock_then_unlock_succeeds_for_page_and_multi_page_sizes() {
    let gate = BackendInitializer::without_init();
    for len in [32 * 1024usize, 4 * 1024 * 1024] {
        let p = array_probe(len);
        let view = ResolvedView { kind: BufferKind::FixedArray, len };
        assert_eq!(lock_step(&gate, &p), Step::CallSystem(view));
        assert_eq!(lock_verdict(true), Ok(()));
        assert_eq!(unlock_step(&p), Step::CallSystem(view));
        assert_eq!(unlock_verdict(UnlockAnswer::Accepted), Ok(()));
    }
}

#[test]
fn repeated_unlock_is_not_a_failure() {
    let p = array_probe(16);
    assert!(matches!(unlock_step(&p), Step::CallSystem(_)));
    assert_eq!(unlock_verdict(UnlockAnswer::Accepted), Ok(()));
    assert_eq!(unlock_verdict(UnlockAnswer::NotLocked), Ok(()));
}

#[test]
fn genuine_unlock_refusal_fails() {
    assert_eq!(unlock_verdict(UnlockAnswer::Refused), Err(MemError::UnlockFailed));
}

#[test]
fn locking_empty_buffer_succeeds() {
    let gate = BackendInitializer::without_init();
    let p = array_probe(0);
    assert_eq!(lock_step(&gate, &p), Step::Done);
    assert_eq!(unlock_step(&p), Step::Done);
}

#[test]
fn lock_refused_by_system_fails() {
    assert_eq!(lock_verdict(false), Err(MemError::LockFailed));
}

#[test]
fn failed_backend_init_blocks_lock() {
    let mut gate = BackendInitializer::new();
    assert!(gate.needs_attempt());
    assert!(!gate.settle(InitOutcome::Failed));
    assert!(!gate.needs_attempt());
    assert!(!gate.is_ready());
    assert_eq!(lock_step(&gate, &array_probe(8)), Step::Fail(MemError::BackendInitFailed));
    assert_eq!(lock_step(&gate, &nothing()), Step::Fail(MemError::BackendInitFailed));
}

#[test]
fn gate_settles_exactly_once() {
    let mut gate = BackendInitializer::new();
    assert!(!gate.is_ready());
    assert!(gate.settle(InitOutcome::AlreadyInitialized));
    assert!(gate.is_ready());
    assert!(gate.settle(InitOutcome::Failed));
    assert!(gate.is_ready());
    let mut fresh = BackendInitializer::new();
    assert!(fresh.settle(InitOutcome::Initialized));
    assert!(fresh.settle(InitOutcome::Failed));
    assert!(!fresh.needs_attempt());
}

#[test]
fn gate_without_init_is_ready() {
    let gate = BackendInitializer::without_init();
    assert!(!gate.needs_attempt());
    assert!(gate.is_ready());
}

#[test]
fn reasons_tell_failures_apart() {
    let all = [
        MemError::Unsupported,
        MemError::BackendInitFailed,
        MemError::LockFailed,
        MemError::UnlockFailed,
    ];
    for (i, a) in all.iter().enumerate() {
        for b in &all[i + 1..] {
            assert_ne!(a.reason(), b.reason());
        }
    }
    assert_eq!(MemError::LockFailed.reason(), "mlock failed");
    assert_eq!(MemError::UnlockFailed.reason(), "munlock failed");
    let unsupported = MemError::Unsupported.reason();
    assert!(unsupported.contains("bytearray"));
    assert!(unsupported.contains("numpy"));
    assert!(unsupported.contains("buffer-protocol"));
    assert!(unsupported.contains("bytes (for reading only)"));
}
