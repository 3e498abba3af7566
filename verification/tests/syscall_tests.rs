use libsys::syscall::{into_result, klog, task, SyscallError, Vector};

#[test]
fn vector_numbers() {
    assert_eq!(Vector::KlogTrace.number(), 0x10_0000);
    assert_eq!(Vector::KlogDebug.number(), 0x10_0001);
    assert_eq!(Vector::KlogInfo.number(), 0x10_0002);
    assert_eq!(Vector::KlogWarn.number(), 0x10_0003);
    assert_eq!(Vector::KlogError.number(), 0x10_0004);
    assert_eq!(Vector::TaskKill.number(), 0x20_0000);
    assert_eq!(Vector::TaskDefer.number(), 0x20_0001);
}

#[test]
fn klog_error_codes() {
    assert_eq!(klog::Error::NotMapped.code(), 1);
    assert_eq!(klog::Error::InvalidUtf8.code(), 2);
    assert_eq!(klog::Error::try_from_code(1), Some(klog::Error::NotMapped));
    assert_eq!(klog::Error::try_from_code(2), Some(klog::Error::InvalidUtf8));
    assert_eq!(klog::Error::try_from_code(0), None);
    assert_eq!(klog::Error::try_from_code(3), None);
}

#[test]
fn task_error_codes() {
    assert_eq!(task::Error::NoTask.code(), 1);
    assert_eq!(task::Error::try_from_code(1), Some(task::Error::NoTask));
    assert_eq!(task::Error::try_from_code(2), None);
}

#[test]
fn into_result_decodes() {
    assert_eq!(into_result::<klog::Error>(0, 42), Ok(42));
    assert_eq!(into_result::<klog::Error>(1, 0), Err(klog::Error::NotMapped));
    assert_eq!(
        into_result::<klog::Error>(2, 99),
        Err(klog::Error::InvalidUtf8)
    );
    assert_eq!(into_result::<task::Error>(0, 7), Ok(7));
    assert_eq!(into_result::<task::Error>(1, 7), Err(task::Error::NoTask));
}
