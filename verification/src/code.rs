//! Numeric error codes shared with the operating system, their descriptions
//! and the conversions between codes, integers and I/O error kinds.
use vstd::prelude::*;

verus! {

/// An error code known to the library, as reported by the operating system.
#[allow(non_camel_case_types)]
#[derive(Debug, Clone, Copy, PartialEq, Eq, Structural)]
pub enum Code {
    EPERM,
    ENOENT,
    ESRCH,
    EINTR,
    EIO,
    ENXIO,
    E2BIG,
    ENOEXEC,
    EBADF,
    ECHILD,
    EDEADLK,
    ENOMEM,
    EACCES,
    EFAULT,
    ENOTBLK,
    EBUSY,
    EEXIST,
    EXDEV,
    ENODEV,
    ENOTDIR,
    EISDIR,
    EINVAL,
    EMFILE,
    ENFILE,
    ENOTTY,
    ETXTBSY,
    EFBIG,
    ENOSPC,
    ESPIPE,
    EROFS,
    EMLINK,
    EPIPE,
    EDOM,
    ERANGE,
    EAGAIN,
    EINPROGRESS,
    EALREADY,
    ENOTSOCK,
    EMSGSIZE,
    EPROTOTYPE,
    ENOPROTOOPT,
    EPROTONOSUPPORT,
    ESOCKTNOSUPPORT,
    EOPNOTSUPP,
    EPFNOSUPPORT,
    EAFNOSUPPORT,
    EADDRINUSE,
    EADDRNOTAVAIL,
    ENETDOWN,
    ENETUNREACH,
    ENETRESET,
    ECONNABORTED,
    ECONNRESET,
    ENOBUFS,
    EISCONN,
    ENOTCONN,
    EDESTADDRREQ,
    ESHUTDOWN,
    ETOOMANYREFS,
    ETIMEDOUT,
    ECONNREFUSED,
    ELOOP,
    ENAMETOOLONG,
    EHOSTDOWN,
    EHOSTUNREACH,
    ENOTEMPTY,
    EPROCLIM,
    EUSERS,
    EDQUOT,
    ESTALE,
    EREMOTE,
    EBADRPC,
    ERPCMISMATCH,
    EPROGUNAVAIL,
    EPROGMISMATCH,
    EPROCUNAVAIL,
    ENOLCK,
    EFTYPE,
    EAUTH,
    ENEEDAUTH,
    ENOSYS,
    ELIBEXEC,
    ENOTSUP,
    EILSEQ,
    EBACKGROUND,
    EDIED,
    ED,
    EGREGIOUS,
    EIEIO,
    EGRATUITOUS,
    EBADMSG,
    EIDRM,
    EMULTIHOP,
    ENODATA,
    ENOLINK,
    ENOMSG,
    ENOSR,
    ENOSTR,
    EOVERFLOW,
    EPROTO,
    ETIME,
    ECANCELED,
    EOWNERDEAD,
    ENOTRECOVERABLE,
    EMACH_SEND_IN_PROGRESS,
    EMACH_SEND_INVALID_DATA,
    EMACH_SEND_INVALID_DEST,
    EMACH_SEND_TIMED_OUT,
    EMACH_SEND_WILL_NOTIFY,
    EMACH_SEND_NOTIFY_IN_PROGRESS,
    EMACH_SEND_INTERRUPTED,
    EMACH_SEND_MSG_TOO_SMALL,
    EMACH_SEND_INVALID_REPLY,
    EMACH_SEND_INVALID_RIGHT,
    EMACH_SEND_INVALID_NOTIFY,
    EMACH_SEND_INVALID_MEMORY,
    EMACH_SEND_NO_BUFFER,
    EMACH_SEND_NO_NOTIFY,
    EMACH_SEND_INVALID_TYPE,
    EMACH_SEND_INVALID_HEADER,
    EMACH_RCV_IN_PROGRESS,
    EMACH_RCV_INVALID_NAME,
    EMACH_RCV_TIMED_OUT,
    EMACH_RCV_TOO_LARGE,
    EMACH_RCV_INTERRUPTED,
    EMACH_RCV_PORT_CHANGED,
    EMACH_RCV_INVALID_NOTIFY,
    EMACH_RCV_INVALID_DATA,
    EMACH_RCV_PORT_DIED,
    EMACH_RCV_IN_SET,
    EMACH_RCV_HEADER_ERROR,
    EMACH_RCV_BODY_ERROR,
    EKERN_INVALID_ADDRESS,
    EKERN_PROTECTION_FAILURE,
    EKERN_NO_SPACE,
    EKERN_INVALID_ARGUMENT,
    EKERN_FAILURE,
    EKERN_RESOURCE_SHORTAGE,
    EKERN_NOT_RECEIVER,
    EKERN_NO_ACCESS,
    EKERN_MEMORY_FAILURE,
    EKERN_MEMORY_ERROR,
    EKERN_NOT_IN_SET,
    EKERN_NAME_EXISTS,
    EKERN_ABORTED,
    EKERN_INVALID_NAME,
    EKERN_INVALID_TASK,
    EKERN_INVALID_RIGHT,
    EKERN_INVALID_VALUE,
    EKERN_UREFS_OVERFLOW,
    EKERN_INVALID_CAPABILITY,
    EKERN_RIGHT_EXISTS,
    EKERN_INVALID_HOST,
    EKERN_MEMORY_PRESENT,
    EKERN_WRITE_PROTECTION_FAILURE,
    EKERN_TERMINATED,
    EKERN_TIMEDOUT,
    EKERN_INTERRUPTED,
    EMIG_TYPE_ERROR,
    EMIG_REPLY_MISMATCH,
    EMIG_REMOTE_ERROR,
    EMIG_BAD_ID,
    EMIG_BAD_ARGUMENTS,
    EMIG_NO_REPLY,
    EMIG_EXCEPTION,
    EMIG_ARRAY_TOO_LARGE,
    EMIG_SERVER_DIED,
    EMIG_DESTROY_REQUEST,
    ED_IO_ERROR,
    ED_WOULD_BLOCK,
    ED_NO_SUCH_DEVICE,
    ED_ALREADY_OPEN,
    ED_DEVICE_DOWN,
    ED_INVALID_OPERATION,
    ED_INVALID_RECNUM,
    ED_INVALID_SIZE,
    ED_NO_MEMORY,
    ED_READ_ONLY,
}

/// The kinds of I/O failure that the library maps to codes; `Other` stands
/// for every kind that has no code of its own.
#[derive(Debug, Clone, Copy, PartialEq, Eq, Structural)]
pub enum ErrorKind {
    AddrInUse,
    AddrNotAvailable,
    AlreadyExists,
    ArgumentListTooLong,
    BrokenPipe,
    ConnectionAborted,
    ConnectionRefused,
    ConnectionReset,
    CrossesDevices,
    Deadlock,
    DirectoryNotEmpty,
    ExecutableFileBusy,
    FileTooLarge,
    FilesystemLoop,
    QuotaExceeded,
    HostUnreachable,
    InProgress,
    Interrupted,
    InvalidData,
    InvalidFilename,
    InvalidInput,
    IsADirectory,
    NetworkDown,
    NetworkUnreachable,
    NotADirectory,
    NotConnected,
    NotFound,
    NotSeekable,
    OutOfMemory,
    PermissionDenied,
    ReadOnlyFilesystem,
    ResourceBusy,
    StaleNetworkFileHandle,
    StorageFull,
    TimedOut,
    TooManyLinks,
    UnexpectedEof,
    Unsupported,
    WouldBlock,
    WriteZero,
    Other,
}

/// The integer of each code.
pub open spec fn code_to_i32(c: Code) -> i32 {
    match c {
        Code::EPERM => 0x40000001i32,
        Code::ENOENT => 0x40000002i32,
        Code::ESRCH => 0x40000003i32,
        Code::EINTR => 0x40000004i32,
        Code::EIO => 0x40000005i32,
        Code::ENXIO => 0x40000006i32,
        Code::E2BIG => 0x40000007i32,
        Code::ENOEXEC => 0x40000008i32,
        Code::EBADF => 0x40000009i32,
        Code::ECHILD => 0x4000000ai32,
        Code::EDEADLK => 0x4000000bi32,
        Code::ENOMEM => 0x4000000ci32,
        Code::EACCES => 0x4000000di32,
        Code::EFAULT => 0x4000000ei32,
        Code::ENOTBLK => 0x4000000fi32,
        Code::EBUSY => 0x40000010i32,
        Code::EEXIST => 0x40000011i32,
        Code::EXDEV => 0x40000012i32,
        Code::ENODEV => 0x40000013i32,
        Code::ENOTDIR => 0x40000014i32,
        Code::EISDIR => 0x40000015i32,
        Code::EINVAL => 0x40000016i32,
        Code::EMFILE => 0x40000018i32,
        Code::ENFILE => 0x40000017i32,
        Code::ENOTTY => 0x40000019i32,
        Code::ETXTBSY => 0x4000001ai32,
        Code::EFBIG => 0x4000001bi32,
        Code::ENOSPC => 0x4000001ci32,
        Code::ESPIPE => 0x4000001di32,
        Code::EROFS => 0x4000001ei32,
        Code::EMLINK => 0x4000001fi32,
        Code::EPIPE => 0x40000020i32,
        Code::EDOM => 0x40000021i32,
        Code::ERANGE => 0x40000022i32,
        Code::EAGAIN => 0x40000023i32,
        Code::EINPROGRESS => 0x40000024i32,
        Code::EALREADY => 0x40000025i32,
        Code::ENOTSOCK => 0x40000026i32,
        Code::EMSGSIZE => 0x40000028i32,
        Code::EPROTOTYPE => 0x40000029i32,
        Code::ENOPROTOOPT => 0x4000002ai32,
        Code::EPROTONOSUPPORT => 0x4000002bi32,
        Code::ESOCKTNOSUPPORT => 0x4000002ci32,
        Code::EOPNOTSUPP => 0x4000002di32,
        Code::EPFNOSUPPORT => 0x4000002ei32,
        Code::EAFNOSUPPORT => 0x4000002fi32,
        Code::EADDRINUSE => 0x40000030i32,
        Code::EADDRNOTAVAIL => 0x40000031i32,
        Code::ENETDOWN => 0x40000032i32,
        Code::ENETUNREACH => 0x40000033i32,
        Code::ENETRESET => 0x40000034i32,
        Code::ECONNABORTED => 0x40000035i32,
        Code::ECONNRESET => 0x40000036i32,
        Code::ENOBUFS => 0x40000037i32,
        Code::EISCONN => 0x40000038i32,
        Code::ENOTCONN => 0x40000039i32,
        Code::EDESTADDRREQ => 0x40000027i32,
        Code::ESHUTDOWN => 0x4000003ai32,
        Code::ETOOMANYREFS => 0x4000003bi32,
        Code::ETIMEDOUT => 0x4000003ci32,
        Code::ECONNREFUSED => 0x4000003di32,
        Code::ELOOP => 0x4000003ei32,
        Code::ENAMETOOLONG => 0x4000003fi32,
        Code::EHOSTDOWN => 0x40000040i32,
        Code::EHOSTUNREACH => 0x40000041i32,
        Code::ENOTEMPTY => 0x40000042i32,
        Code::EPROCLIM => 0x40000043i32,
        Code::EUSERS => 0x40000044i32,
        Code::EDQUOT => 0x40000045i32,
        Code::ESTALE => 0x40000046i32,
        Code::EREMOTE => 0x40000047i32,
        Code::EBADRPC => 0x40000048i32,
        Code::ERPCMISMATCH => 0x40000049i32,
        Code::EPROGUNAVAIL => 0x4000004ai32,
        Code::EPROGMISMATCH => 0x4000004bi32,
        Code::EPROCUNAVAIL => 0x4000004ci32,
        Code::ENOLCK => 0x4000004di32,
        Code::EFTYPE => 0x4000004fi32,
        Code::EAUTH => 0x40000050i32,
        Code::ENEEDAUTH => 0x40000051i32,
        Code::ENOSYS => 0x4000004ei32,
        Code::ELIBEXEC => 0x40000053i32,
        Code::ENOTSUP => 0x40000076i32,
        Code::EILSEQ => 0x4000006ai32,
        Code::EBACKGROUND => 0x40000064i32,
        Code::EDIED => 0x40000065i32,
        Code::ED => 0x40000066i32,
        Code::EGREGIOUS => 0x40000067i32,
        Code::EIEIO => 0x40000068i32,
        Code::EGRATUITOUS => 0x40000069i32,
        Code::EBADMSG => 0x4000006bi32,
        Code::EIDRM => 0x4000006ci32,
        Code::EMULTIHOP => 0x4000006di32,
        Code::ENODATA => 0x4000006ei32,
        Code::ENOLINK => 0x4000006fi32,
        Code::ENOMSG => 0x40000070i32,
        Code::ENOSR => 0x40000071i32,
        Code::ENOSTR => 0x40000072i32,
        Code::EOVERFLOW => 0x40000073i32,
        Code::EPROTO => 0x40000074i32,
        Code::ETIME => 0x40000075i32,
        Code::ECANCELED => 0x40000077i32,
        Code::EOWNERDEAD => 0x40000078i32,
        Code::ENOTRECOVERABLE => 0x40000079i32,
        Code::EMACH_SEND_IN_PROGRESS => 0x10000001i32,
        Code::EMACH_SEND_INVALID_DATA => 0x10000002i32,
        Code::EMACH_SEND_INVALID_DEST => 0x10000003i32,
        Code::EMACH_SEND_TIMED_OUT => 0x10000004i32,
        Code::EMACH_SEND_WILL_NOTIFY => 0x10000005i32,
        Code::EMACH_SEND_NOTIFY_IN_PROGRESS => 0x10000006i32,
        Code::EMACH_SEND_INTERRUPTED => 0x10000007i32,
        Code::EMACH_SEND_MSG_TOO_SMALL => 0x10000008i32,
        Code::EMACH_SEND_INVALID_REPLY => 0x10000009i32,
        Code::EMACH_SEND_INVALID_RIGHT => 0x1000000ai32,
        Code::EMACH_SEND_INVALID_NOTIFY => 0x1000000bi32,
        Code::EMACH_SEND_INVALID_MEMORY => 0x1000000ci32,
        Code::EMACH_SEND_NO_BUFFER => 0x1000000di32,
        Code::EMACH_SEND_NO_NOTIFY => 0x1000000ei32,
        Code::EMACH_SEND_INVALID_TYPE => 0x1000000fi32,
        Code::EMACH_SEND_INVALID_HEADER => 0x10000010i32,
        Code::EMACH_RCV_IN_PROGRESS => 0x10004001i32,
        Code::EMACH_RCV_INVALID_NAME => 0x10004002i32,
        Code::EMACH_RCV_TIMED_OUT => 0x10004003i32,
        Code::EMACH_RCV_TOO_LARGE => 0x10004004i32,
        Code::EMACH_RCV_INTERRUPTED => 0x10004005i32,
        Code::EMACH_RCV_PORT_CHANGED => 0x10004006i32,
        Code::EMACH_RCV_INVALID_NOTIFY => 0x10004007i32,
        Code::EMACH_RCV_INVALID_DATA => 0x10004008i32,
        Code::EMACH_RCV_PORT_DIED => 0x10004009i32,
        Code::EMACH_RCV_IN_SET => 0x1000400ai32,
        Code::EMACH_RCV_HEADER_ERROR => 0x1000400bi32,
        Code::EMACH_RCV_BODY_ERROR => 0x1000400ci32,
        Code::EKERN_INVALID_ADDRESS => 1i32,
        Code::EKERN_PROTECTION_FAILURE => 2i32,
        Code::EKERN_NO_SPACE => 3i32,
        Code::EKERN_INVALID_ARGUMENT => 4i32,
        Code::EKERN_FAILURE => 5i32,
        Code::EKERN_RESOURCE_SHORTAGE => 6i32,
        Code::EKERN_NOT_RECEIVER => 7i32,
        Code::EKERN_NO_ACCESS => 8i32,
        Code::EKERN_MEMORY_FAILURE => 9i32,
        Code::EKERN_MEMORY_ERROR => 10i32,
        Code::EKERN_NOT_IN_SET => 12i32,
        Code::EKERN_NAME_EXISTS => 13i32,
        Code::EKERN_ABORTED => 14i32,
        Code::EKERN_INVALID_NAME => 15i32,
        Code::EKERN_INVALID_TASK => 16i32,
        Code::EKERN_INVALID_RIGHT => 17i32,
        Code::EKERN_INVALID_VALUE => 18i32,
        Code::EKERN_UREFS_OVERFLOW => 19i32,
        Code::EKERN_INVALID_CAPABILITY => 20i32,
        Code::EKERN_RIGHT_EXISTS => 21i32,
        Code::EKERN_INVALID_HOST => 22i32,
        Code::EKERN_MEMORY_PRESENT => 23i32,
        Code::EKERN_WRITE_PROTECTION_FAILURE => 24i32,
        Code::EKERN_TERMINATED => 26i32,
        Code::EKERN_TIMEDOUT => 27i32,
        Code::EKERN_INTERRUPTED => 28i32,
        Code::EMIG_TYPE_ERROR => -300i32,
        Code::EMIG_REPLY_MISMATCH => -301i32,
        Code::EMIG_REMOTE_ERROR => -302i32,
        Code::EMIG_BAD_ID => -303i32,
        Code::EMIG_BAD_ARGUMENTS => -304i32,
        Code::EMIG_NO_REPLY => -305i32,
        Code::EMIG_EXCEPTION => -306i32,
        Code::EMIG_ARRAY_TOO_LARGE => -307i32,
        Code::EMIG_SERVER_DIED => -308i32,
        Code::EMIG_DESTROY_REQUEST => -309i32,
        Code::ED_IO_ERROR => 2500i32,
        Code::ED_WOULD_BLOCK => 2501i32,
        Code::ED_NO_SUCH_DEVICE => 2502i32,
        Code::ED_ALREADY_OPEN => 2503i32,
        Code::ED_DEVICE_DOWN => 2504i32,
        Code::ED_INVALID_OPERATION => 2505i32,
        Code::ED_INVALID_RECNUM => 2506i32,
        Code::ED_INVALID_SIZE => 2507i32,
        Code::ED_NO_MEMORY => 2508i32,
        Code::ED_READ_ONLY => 2509i32,
    }
}

/// The code of each integer that has one.
pub open spec fn code_from_i32(n: i32) -> Option<Code> {
    if n == 0x40000001 { Some(Code::EPERM) }
    else if n == 0x40000002 { Some(Code::ENOENT) }
    else if n == 0x40000003 { Some(Code::ESRCH) }
    else if n == 0x40000004 { Some(Code::EINTR) }
    else if n == 0x40000005 { Some(Code::EIO) }
    else if n == 0x40000006 { Some(Code::ENXIO) }
    else if n == 0x40000007 { Some(Code::E2BIG) }
    else if n == 0x40000008 { Some(Code::ENOEXEC) }
    else if n == 0x40000009 { Some(Code::EBADF) }
    else if n == 0x4000000a { Some(Code::ECHILD) }
    else if n == 0x4000000b { Some(Code::EDEADLK) }
    else if n == 0x4000000c { Some(Code::ENOMEM) }
    else if n == 0x4000000d { Some(Code::EACCES) }
    else if n == 0x4000000e { Some(Code::EFAULT) }
    else if n == 0x4000000f { Some(Code::ENOTBLK) }
    else if n == 0x40000010 { Some(Code::EBUSY) }
    else if n == 0x40000011 { Some(Code::EEXIST) }
    else if n == 0x40000012 { Some(Code::EXDEV) }
    else if n == 0x40000013 { Some(Code::ENODEV) }
    else if n == 0x40000014 { Some(Code::ENOTDIR) }
    else if n == 0x40000015 { Some(Code::EISDIR) }
    else if n == 0x40000016 { Some(Code::EINVAL) }
    else if n == 0x40000018 { Some(Code::EMFILE) }
    else if n == 0x40000017 { Some(Code::ENFILE) }
    else if n == 0x40000019 { Some(Code::ENOTTY) }
    else if n == 0x4000001a { Some(Code::ETXTBSY) }
    else if n == 0x4000001b { Some(Code::EFBIG) }
    else if n == 0x4000001c { Some(Code::ENOSPC) }
    else if n == 0x4000001d { Some(Code::ESPIPE) }
    else if n == 0x4000001e { Some(Code::EROFS) }
    else if n == 0x4000001f { Some(Code::EMLINK) }
    else if n == 0x40000020 { Some(Code::EPIPE) }
    else if n == 0x40000021 { Some(Code::EDOM) }
    else if n == 0x40000022 { Some(Code::ERANGE) }
    else if n == 0x40000023 { Some(Code::EAGAIN) }
    else if n == 0x40000024 { Some(Code::EINPROGRESS) }
    else if n == 0x40000025 { Some(Code::EALREADY) }
    else if n == 0x40000026 { Some(Code::ENOTSOCK) }
    else if n == 0x40000028 { Some(Code::EMSGSIZE) }
    else if n == 0x40000029 { Some(Code::EPROTOTYPE) }
    else if n == 0x4000002a { Some(Code::ENOPROTOOPT) }
    else if n == 0x4000002b { Some(Code::EPROTONOSUPPORT) }
    else if n == 0x4000002c { Some(Code::ESOCKTNOSUPPORT) }
    else if n == 0x4000002d { Some(Code::EOPNOTSUPP) }
    else if n == 0x4000002e { Some(Code::EPFNOSUPPORT) }
    else if n == 0x4000002f { Some(Code::EAFNOSUPPORT) }
    else if n == 0x40000030 { Some(Code::EADDRINUSE) }
    else if n == 0x40000031 { Some(Code::EADDRNOTAVAIL) }
    else if n == 0x40000032 { Some(Code::ENETDOWN) }
    else if n == 0x40000033 { Some(Code::ENETUNREACH) }
    else if n == 0x40000034 { Some(Code::ENETRESET) }
    else if n == 0x40000035 { Some(Code::ECONNABORTED) }
    else if n == 0x40000036 { Some(Code::ECONNRESET) }
    else if n == 0x40000037 { Some(Code::ENOBUFS) }
    else if n == 0x40000038 { Some(Code::EISCONN) }
    else if n == 0x40000039 { Some(Code::ENOTCONN) }
    else if n == 0x40000027 { Some(Code::EDESTADDRREQ) }
    else if n == 0x4000003a { Some(Code::ESHUTDOWN) }
    else if n == 0x4000003b { Some(Code::ETOOMANYREFS) }
    else if n == 0x4000003c { Some(Code::ETIMEDOUT) }
    else if n == 0x4000003d { Some(Code::ECONNREFUSED) }
    else if n == 0x4000003e { Some(Code::ELOOP) }
    else if n == 0x4000003f { Some(Code::ENAMETOOLONG) }
    else if n == 0x40000040 { Some(Code::EHOSTDOWN) }
    else if n == 0x40000041 { Some(Code::EHOSTUNREACH) }
    else if n == 0x40000042 { Some(Code::ENOTEMPTY) }
    else if n == 0x40000043 { Some(Code::EPROCLIM) }
    else if n == 0x40000044 { Some(Code::EUSERS) }
    else if n == 0x40000045 { Some(Code::EDQUOT) }
    else if n == 0x40000046 { Some(Code::ESTALE) }
    else if n == 0x40000047 { Some(Code::EREMOTE) }
    else if n == 0x40000048 { Some(Code::EBADRPC) }
    else if n == 0x40000049 { Some(Code::ERPCMISMATCH) }
    else if n == 0x4000004a { Some(Code::EPROGUNAVAIL) }
    else if n == 0x4000004b { Some(Code::EPROGMISMATCH) }
    else if n == 0x4000004c { Some(Code::EPROCUNAVAIL) }
    else if n == 0x4000004d { Some(Code::ENOLCK) }
    else if n == 0x4000004f { Some(Code::EFTYPE) }
    else if n == 0x40000050 { Some(Code::EAUTH) }
    else if n == 0x40000051 { Some(Code::ENEEDAUTH) }
    else if n == 0x4000004e { Some(Code::ENOSYS) }
    else if n == 0x40000053 { Some(Code::ELIBEXEC) }
    else if n == 0x40000076 { Some(Code::ENOTSUP) }
    else if n == 0x4000006a { Some(Code::EILSEQ) }
    else if n == 0x40000064 { Some(Code::EBACKGROUND) }
    else if n == 0x40000065 { Some(Code::EDIED) }
    else if n == 0x40000066 { Some(Code::ED) }
    else if n == 0x40000067 { Some(Code::EGREGIOUS) }
    else if n == 0x40000068 { Some(Code::EIEIO) }
    else if n == 0x40000069 { Some(Code::EGRATUITOUS) }
    else if n == 0x4000006b { Some(Code::EBADMSG) }
    else if n == 0x4000006c { Some(Code::EIDRM) }
    else if n == 0x4000006d { Some(Code::EMULTIHOP) }
    else if n == 0x4000006e { Some(Code::ENODATA) }
    else if n == 0x4000006f { Some(Code::ENOLINK) }
    else if n == 0x40000070 { Some(Code::ENOMSG) }
    else if n == 0x40000071 { Some(Code::ENOSR) }
    else if n == 0x40000072 { Some(Code::ENOSTR) }
    else if n == 0x40000073 { Some(Code::EOVERFLOW) }
    else if n == 0x40000074 { Some(Code::EPROTO) }
    else if n == 0x40000075 { Some(Code::ETIME) }
    else if n == 0x40000077 { Some(Code::ECANCELED) }
    else if n == 0x40000078 { Some(Code::EOWNERDEAD) }
    else if n == 0x40000079 { Some(Code::ENOTRECOVERABLE) }
    else if n == 0x10000001 { Some(Code::EMACH_SEND_IN_PROGRESS) }
    else if n == 0x10000002 { Some(Code::EMACH_SEND_INVALID_DATA) }
    else if n == 0x10000003 { Some(Code::EMACH_SEND_INVALID_DEST) }
    else if n == 0x10000004 { Some(Code::EMACH_SEND_TIMED_OUT) }
    else if n == 0x10000005 { Some(Code::EMACH_SEND_WILL_NOTIFY) }
    else if n == 0x10000006 { Some(Code::EMACH_SEND_NOTIFY_IN_PROGRESS) }
    else if n == 0x10000007 { Some(Code::EMACH_SEND_INTERRUPTED) }
    else if n == 0x10000008 { Some(Code::EMACH_SEND_MSG_TOO_SMALL) }
    else if n == 0x10000009 { Some(Code::EMACH_SEND_INVALID_REPLY) }
    else if n == 0x1000000a { Some(Code::EMACH_SEND_INVALID_RIGHT) }
    else if n == 0x1000000b { Some(Code::EMACH_SEND_INVALID_NOTIFY) }
    else if n == 0x1000000c { Some(Code::EMACH_SEND_INVALID_MEMORY) }
    else if n == 0x1000000d { Some(Code::EMACH_SEND_NO_BUFFER) }
    else if n == 0x1000000e { Some(Code::EMACH_SEND_NO_NOTIFY) }
    else if n == 0x1000000f { Some(Code::EMACH_SEND_INVALID_TYPE) }
    else if n == 0x10000010 { Some(Code::EMACH_SEND_INVALID_HEADER) }
    else if n == 0x10004001 { Some(Code::EMACH_RCV_IN_PROGRESS) }
    else if n == 0x10004002 { Some(Code::EMACH_RCV_INVALID_NAME) }
    else if n == 0x10004003 { Some(Code::EMACH_RCV_TIMED_OUT) }
    else if n == 0x10004004 { Some(Code::EMACH_RCV_TOO_LARGE) }
    else if n == 0x10004005 { Some(Code::EMACH_RCV_INTERRUPTED) }
    else if n == 0x10004006 { Some(Code::EMACH_RCV_PORT_CHANGED) }
    else if n == 0x10004007 { Some(Code::EMACH_RCV_INVALID_NOTIFY) }
    else if n == 0x10004008 { Some(Code::EMACH_RCV_INVALID_DATA) }
    else if n == 0x10004009 { Some(Code::EMACH_RCV_PORT_DIED) }
    else if n == 0x1000400a { Some(Code::EMACH_RCV_IN_SET) }
    else if n == 0x1000400b { Some(Code::EMACH_RCV_HEADER_ERROR) }
    else if n == 0x1000400c { Some(Code::EMACH_RCV_BODY_ERROR) }
    else if n == 1 { Some(Code::EKERN_INVALID_ADDRESS) }
    else if n == 2 { Some(Code::EKERN_PROTECTION_FAILURE) }
    else if n == 3 { Some(Code::EKERN_NO_SPACE) }
    else if n == 4 { Some(Code::EKERN_INVALID_ARGUMENT) }
    else if n == 5 { Some(Code::EKERN_FAILURE) }
    else if n == 6 { Some(Code::EKERN_RESOURCE_SHORTAGE) }
    else if n == 7 { Some(Code::EKERN_NOT_RECEIVER) }
    else if n == 8 { Some(Code::EKERN_NO_ACCESS) }
    else if n == 9 { Some(Code::EKERN_MEMORY_FAILURE) }
    else if n == 10 { Some(Code::EKERN_MEMORY_ERROR) }
    else if n == 12 { Some(Code::EKERN_NOT_IN_SET) }
    else if n == 13 { Some(Code::EKERN_NAME_EXISTS) }
    else if n == 14 { Some(Code::EKERN_ABORTED) }
    else if n == 15 { Some(Code::EKERN_INVALID_NAME) }
    else if n == 16 { Some(Code::EKERN_INVALID_TASK) }
    else if n == 17 { Some(Code::EKERN_INVALID_RIGHT) }
    else if n == 18 { Some(Code::EKERN_INVALID_VALUE) }
    else if n == 19 { Some(Code::EKERN_UREFS_OVERFLOW) }
    else if n == 20 { Some(Code::EKERN_INVALID_CAPABILITY) }
    else if n == 21 { Some(Code::EKERN_RIGHT_EXISTS) }
    else if n == 22 { Some(Code::EKERN_INVALID_HOST) }
    else if n == 23 { Some(Code::EKERN_MEMORY_PRESENT) }
    else if n == 24 { Some(Code::EKERN_WRITE_PROTECTION_FAILURE) }
    else if n == 26 { Some(Code::EKERN_TERMINATED) }
    else if n == 27 { Some(Code::EKERN_TIMEDOUT) }
    else if n == 28 { Some(Code::EKERN_INTERRUPTED) }
    else if n == -300 { Some(Code::EMIG_TYPE_ERROR) }
    else if n == -301 { Some(Code::EMIG_REPLY_MISMATCH) }
    else if n == -302 { Some(Code::EMIG_REMOTE_ERROR) }
    else if n == -303 { Some(Code::EMIG_BAD_ID) }
    else if n == -304 { Some(Code::EMIG_BAD_ARGUMENTS) }
    else if n == -305 { Some(Code::EMIG_NO_REPLY) }
    else if n == -306 { Some(Code::EMIG_EXCEPTION) }
    else if n == -307 { Some(Code::EMIG_ARRAY_TOO_LARGE) }
    else if n == -308 { Some(Code::EMIG_SERVER_DIED) }
    else if n == -309 { Some(Code::EMIG_DESTROY_REQUEST) }
    else if n == 2500 { Some(Code::ED_IO_ERROR) }
    else if n == 2501 { Some(Code::ED_WOULD_BLOCK) }
    else if n == 2502 { Some(Code::ED_NO_SUCH_DEVICE) }
    else if n == 2503 { Some(Code::ED_ALREADY_OPEN) }
    else if n == 2504 { Some(Code::ED_DEVICE_DOWN) }
    else if n == 2505 { Some(Code::ED_INVALID_OPERATION) }
    else if n == 2506 { Some(Code::ED_INVALID_RECNUM) }
    else if n == 2507 { Some(Code::ED_INVALID_SIZE) }
    else if n == 2508 { Some(Code::ED_NO_MEMORY) }
    else if n == 2509 { Some(Code::ED_READ_ONLY) }
    else { None }
}

/// The description of each code.
pub open spec fn code_desc(c: Code) -> Seq<char> {
    match c {
        Code::EPERM => "Operation not permitted"@,
        Code::ENOENT => "No such file or directory"@,
        Code::ESRCH => "No such process"@,
        Code::EINTR => "Interrupted system call"@,
        Code::EIO => "Input/output error"@,
        Code::ENXIO => "No such device or address"@,
        Code::E2BIG => "Argument list too long"@,
        Code::ENOEXEC => "Exec format error"@,
        Code::EBADF => "Bad file descriptor"@,
        Code::ECHILD => "No child processes"@,
        Code::EDEADLK => "Resource deadlock avoided"@,
        Code::ENOMEM => "Cannot allocate memory"@,
        Code::EACCES => "Permission denied"@,
        Code::EFAULT => "Bad address"@,
        Code::ENOTBLK => "Block device required"@,
        Code::EBUSY => "Device or resource busy"@,
        Code::EEXIST => "File exists"@,
        Code::EXDEV => "Invalid cross-device link"@,
        Code::ENODEV => "No such device"@,
        Code::ENOTDIR => "Not a directory"@,
        Code::EISDIR => "Is a directory"@,
        Code::EINVAL => "Invalid argument"@,
        Code::EMFILE => "Too many open files"@,
        Code::ENFILE => "Too many open files in system"@,
        Code::ENOTTY => "Inappropriate ioctl for device"@,
        Code::ETXTBSY => "Text file busy"@,
        Code::EFBIG => "File too large"@,
        Code::ENOSPC => "No space left on device"@,
        Code::ESPIPE => "Illegal seek"@,
        Code::EROFS => "Read-only file system"@,
        Code::EMLINK => "Too many links"@,
        Code::EPIPE => "Broken pipe"@,
        Code::EDOM => "Numerical argument out of domain"@,
        Code::ERANGE => "Numerical result out of range"@,
        Code::EAGAIN => "Resource temporarily unavailable"@,
        Code::EINPROGRESS => "Operation now in progress"@,
        Code::EALREADY => "Operation already in progress"@,
        Code::ENOTSOCK => "Socket operation on non-socket"@,
        Code::EMSGSIZE => "Message too long"@,
        Code::EPROTOTYPE => "Protocol wrong type for socket"@,
        Code::ENOPROTOOPT => "Protocol not available"@,
        Code::EPROTONOSUPPORT => "Protocol not supported"@,
        Code::ESOCKTNOSUPPORT => "Socket type not supported"@,
        Code::EOPNOTSUPP => "Operation not supported"@,
        Code::EPFNOSUPPORT => "Protocol family not supported"@,
        Code::EAFNOSUPPORT => "Address family not supported by protocol"@,
        Code::EADDRINUSE => "Address already in use"@,
        Code::EADDRNOTAVAIL => "Cannot assign requested address"@,
        Code::ENETDOWN => "Network is down"@,
        Code::ENETUNREACH => "Network is unreachable"@,
        Code::ENETRESET => "Network dropped connection on reset"@,
        Code::ECONNABORTED => "Software caused connection abort"@,
        Code::ECONNRESET => "Connection reset by peer"@,
        Code::ENOBUFS => "No buffer space available"@,
        Code::EISCONN => "Transport endpoint is already connected"@,
        Code::ENOTCONN => "Transport endpoint is not connected"@,
        Code::EDESTADDRREQ => "Destination address required"@,
        Code::ESHUTDOWN => "Cannot send after transport endpoint shutdown"@,
        Code::ETOOMANYREFS => "Too many references: cannot splice"@,
        Code::ETIMEDOUT => "Connection timed out"@,
        Code::ECONNREFUSED => "Connection refused"@,
        Code::ELOOP => "Too many levels of symbolic links"@,
        Code::ENAMETOOLONG => "File name too long"@,
        Code::EHOSTDOWN => "Host is down"@,
        Code::EHOSTUNREACH => "No route to host"@,
        Code::ENOTEMPTY => "Directory not empty"@,
        Code::EPROCLIM => "Too many processes"@,
        Code::EUSERS => "Too many users"@,
        Code::EDQUOT => "Disk quota exceeded"@,
        Code::ESTALE => "Stale file handle"@,
        Code::EREMOTE => "Object is remote"@,
        Code::EBADRPC => "RPC struct is bad"@,
        Code::ERPCMISMATCH => "RPC version wrong"@,
        Code::EPROGUNAVAIL => "RPC program not available"@,
        Code::EPROGMISMATCH => "RPC program version wrong"@,
        Code::EPROCUNAVAIL => "RPC bad procedure for program"@,
        Code::ENOLCK => "No locks available"@,
        Code::EFTYPE => "Inappropriate file type or format"@,
        Code::EAUTH => "Authentication error"@,
        Code::ENEEDAUTH => "Need authenticator"@,
        Code::ENOSYS => "Function not implemented"@,
        Code::ELIBEXEC => "Cannot exec a shared library directly"@,
        Code::ENOTSUP => "Not supported"@,
        Code::EILSEQ => "Invalid or incomplete multibyte or wide character"@,
        Code::EBACKGROUND => "Inappropriate operation for background process"@,
        Code::EDIED => "Translator died"@,
        Code::ED => "?"@,
        Code::EGREGIOUS => "You really blew it this time"@,
        Code::EIEIO => "Computer bought the farm"@,
        Code::EGRATUITOUS => "Gratuitous error"@,
        Code::EBADMSG => "Bad message"@,
        Code::EIDRM => "Identifier removed"@,
        Code::EMULTIHOP => "Multihop attempted"@,
        Code::ENODATA => "No data available"@,
        Code::ENOLINK => "Link has been severed"@,
        Code::ENOMSG => "No message of desired type"@,
        Code::ENOSR => "Out of streams resources"@,
        Code::ENOSTR => "Device not a stream"@,
        Code::EOVERFLOW => "Value too large for defined data type"@,
        Code::EPROTO => "Protocol error"@,
        Code::ETIME => "Timer expired"@,
        Code::ECANCELED => "Operation canceled"@,
        Code::EOWNERDEAD => "Owner died"@,
        Code::ENOTRECOVERABLE => "State not recoverable"@,
        Code::EMACH_SEND_IN_PROGRESS => "emach send in progress"@,
        Code::EMACH_SEND_INVALID_DATA => "emach send invalid data"@,
        Code::EMACH_SEND_INVALID_DEST => "emach send invalid dest"@,
        Code::EMACH_SEND_TIMED_OUT => "emach send timed out"@,
        Code::EMACH_SEND_WILL_NOTIFY => "emach send will notify"@,
        Code::EMACH_SEND_NOTIFY_IN_PROGRESS => "emach send notify in progress"@,
        Code::EMACH_SEND_INTERRUPTED => "emach send interrupted"@,
        Code::EMACH_SEND_MSG_TOO_SMALL => "emach send msg too small"@,
        Code::EMACH_SEND_INVALID_REPLY => "emach send invalid reply"@,
        Code::EMACH_SEND_INVALID_RIGHT => "emach send invalid right"@,
        Code::EMACH_SEND_INVALID_NOTIFY => "emach send invalid notify"@,
        Code::EMACH_SEND_INVALID_MEMORY => "emach send invalid memory"@,
        Code::EMACH_SEND_NO_BUFFER => "emach send no buffer"@,
        Code::EMACH_SEND_NO_NOTIFY => "emach send no notify"@,
        Code::EMACH_SEND_INVALID_TYPE => "emach send invalid type"@,
        Code::EMACH_SEND_INVALID_HEADER => "emach send invalid header"@,
        Code::EMACH_RCV_IN_PROGRESS => "emach rcv in progress"@,
        Code::EMACH_RCV_INVALID_NAME => "emach rcv invalid name"@,
        Code::EMACH_RCV_TIMED_OUT => "emach rcv timed out"@,
        Code::EMACH_RCV_TOO_LARGE => "emach rcv too large"@,
        Code::EMACH_RCV_INTERRUPTED => "emach rcv interrupted"@,
        Code::EMACH_RCV_PORT_CHANGED => "emach rcv port changed"@,
        Code::EMACH_RCV_INVALID_NOTIFY => "emach rcv invalid notify"@,
        Code::EMACH_RCV_INVALID_DATA => "emach rcv invalid data"@,
        Code::EMACH_RCV_PORT_DIED => "emach rcv port died"@,
        Code::EMACH_RCV_IN_SET => "emach rcv in set"@,
        Code::EMACH_RCV_HEADER_ERROR => "emach rcv header error"@,
        Code::EMACH_RCV_BODY_ERROR => "emach rcv body error"@,
        Code::EKERN_INVALID_ADDRESS => "ekern invalid address"@,
        Code::EKERN_PROTECTION_FAILURE => "ekern protection failure"@,
        Code::EKERN_NO_SPACE => "ekern no space"@,
        Code::EKERN_INVALID_ARGUMENT => "ekern invalid argument"@,
        Code::EKERN_FAILURE => "ekern failure"@,
        Code::EKERN_RESOURCE_SHORTAGE => "ekern resource shortage"@,
        Code::EKERN_NOT_RECEIVER => "ekern not receiver"@,
        Code::EKERN_NO_ACCESS => "ekern no access"@,
        Code::EKERN_MEMORY_FAILURE => "ekern memory failure"@,
        Code::EKERN_MEMORY_ERROR => "ekern memory error"@,
        Code::EKERN_NOT_IN_SET => "ekern not in set"@,
        Code::EKERN_NAME_EXISTS => "ekern name exists"@,
        Code::EKERN_ABORTED => "ekern aborted"@,
        Code::EKERN_INVALID_NAME => "ekern invalid name"@,
        Code::EKERN_INVALID_TASK => "ekern invalid task"@,
        Code::EKERN_INVALID_RIGHT => "ekern invalid right"@,
        Code::EKERN_INVALID_VALUE => "ekern invalid value"@,
        Code::EKERN_UREFS_OVERFLOW => "ekern urefs overflow"@,
        Code::EKERN_INVALID_CAPABILITY => "ekern invalid capability"@,
        Code::EKERN_RIGHT_EXISTS => "ekern right exists"@,
        Code::EKERN_INVALID_HOST => "ekern invalid host"@,
        Code::EKERN_MEMORY_PRESENT => "ekern memory present"@,
        Code::EKERN_WRITE_PROTECTION_FAILURE => "ekern write protection failure"@,
        Code::EKERN_TERMINATED => "ekern terminated"@,
        Code::EKERN_TIMEDOUT => "ekern timedout"@,
        Code::EKERN_INTERRUPTED => "ekern interrupted"@,
        Code::EMIG_TYPE_ERROR => "client type check failure"@,
        Code::EMIG_REPLY_MISMATCH => "wrong reply message ID"@,
        Code::EMIG_REMOTE_ERROR => "server detected error"@,
        Code::EMIG_BAD_ID => "bad request message ID"@,
        Code::EMIG_BAD_ARGUMENTS => "server type check failure"@,
        Code::EMIG_NO_REPLY => "no reply should be sent"@,
        Code::EMIG_EXCEPTION => "server raised exception"@,
        Code::EMIG_ARRAY_TOO_LARGE => "array not large enough"@,
        Code::EMIG_SERVER_DIED => "server died"@,
        Code::EMIG_DESTROY_REQUEST => "destroy request with no reply"@,
        Code::ED_IO_ERROR => "hardware IO error"@,
        Code::ED_WOULD_BLOCK => "would block, but D_NOWAIT set"@,
        Code::ED_NO_SUCH_DEVICE => "no such device"@,
        Code::ED_ALREADY_OPEN => "exclusive-use device already open"@,
        Code::ED_DEVICE_DOWN => "device has been shut down"@,
        Code::ED_INVALID_OPERATION => "bad operation for device"@,
        Code::ED_INVALID_RECNUM => "invalid record (block) number"@,
        Code::ED_INVALID_SIZE => "invalid IO size"@,
        Code::ED_NO_MEMORY => "memory allocation failure"@,
        Code::ED_READ_ONLY => "device cannot be written to"@,
    }
}

/// The code that each kind of I/O failure maps to, if any.
pub open spec fn code_of_error_kind(k: ErrorKind) -> Option<Code> {
    match k {
        ErrorKind::AddrInUse => Some(Code::EADDRINUSE),
        ErrorKind::AddrNotAvailable => Some(Code::EADDRNOTAVAIL),
        ErrorKind::AlreadyExists => Some(Code::EEXIST),
        ErrorKind::ArgumentListTooLong => Some(Code::E2BIG),
        ErrorKind::BrokenPipe => Some(Code::EPIPE),
        ErrorKind::ConnectionAborted => Some(Code::ECONNABORTED),
        ErrorKind::ConnectionRefused => Some(Code::ECONNREFUSED),
        ErrorKind::ConnectionReset => Some(Code::ENETRESET),
        ErrorKind::CrossesDevices => Some(Code::EXDEV),
        ErrorKind::Deadlock => Some(Code::EDEADLK),
        ErrorKind::DirectoryNotEmpty => Some(Code::ENOTEMPTY),
        ErrorKind::ExecutableFileBusy => Some(Code::EBUSY),
        ErrorKind::FileTooLarge => Some(Code::EFBIG),
        ErrorKind::FilesystemLoop => Some(Code::ELOOP),
        ErrorKind::QuotaExceeded => Some(Code::EDQUOT),
        ErrorKind::HostUnreachable => Some(Code::EHOSTUNREACH),
        ErrorKind::InProgress => Some(Code::EINPROGRESS),
        ErrorKind::Interrupted => Some(Code::EINTR),
        ErrorKind::InvalidData => Some(Code::EINVAL),
        ErrorKind::InvalidFilename => Some(Code::EMSGSIZE),
        ErrorKind::InvalidInput => Some(Code::EINVAL),
        ErrorKind::IsADirectory => Some(Code::EISDIR),
        ErrorKind::NetworkDown => Some(Code::ENETDOWN),
        ErrorKind::NetworkUnreachable => Some(Code::ENETUNREACH),
        ErrorKind::NotADirectory => Some(Code::ENOTDIR),
        ErrorKind::NotConnected => Some(Code::ENOTCONN),
        ErrorKind::NotFound => Some(Code::ENOENT),
        ErrorKind::NotSeekable => Some(Code::ESPIPE),
        ErrorKind::OutOfMemory => Some(Code::ENOMEM),
        ErrorKind::PermissionDenied => Some(Code::EACCES),
        ErrorKind::ReadOnlyFilesystem => Some(Code::EROFS),
        ErrorKind::ResourceBusy => Some(Code::EBUSY),
        ErrorKind::StaleNetworkFileHandle => Some(Code::ENETUNREACH),
        ErrorKind::StorageFull => Some(Code::EDQUOT),
        ErrorKind::TimedOut => Some(Code::ETIMEDOUT),
        ErrorKind::TooManyLinks => Some(Code::EMLINK),
        ErrorKind::UnexpectedEof => Some(Code::ED_INVALID_SIZE),
        ErrorKind::Unsupported => Some(Code::EOPNOTSUPP),
        ErrorKind::WouldBlock => Some(Code::ED_WOULD_BLOCK),
        ErrorKind::WriteZero => Some(Code::ED_INVALID_SIZE),
        ErrorKind::Other => None,
    }
}

/// The absolute value of the integer of a code.
pub open spec fn code_to_u64(c: Code) -> u64 {
    let n = code_to_i32(c) as int;
    (if n < 0 { -n } else { n }) as u64
}

/// The low byte of a code's magnitude once the two family bits are cleared.
pub open spec fn code_to_u8(c: Code) -> u8 {
    (code_to_u64(c) & !0x40000000u64 & !0x10000000u64) as u8
}

impl Code {
    /// Returns the integer of this code.
    pub fn to_i32(self) -> (r: i32)
        ensures
            r == code_to_i32(self),
    {
        match self {
            Code::EPERM => 0x40000001,
            Code::ENOENT => 0x40000002,
            Code::ESRCH => 0x40000003,
            Code::EINTR => 0x40000004,
            Code::EIO => 0x40000005,
            Code::ENXIO => 0x40000006,
            Code::E2BIG => 0x40000007,
            Code::ENOEXEC => 0x40000008,
            Code::EBADF => 0x40000009,
            Code::ECHILD => 0x4000000a,
            Code::EDEADLK => 0x4000000b,
            Code::ENOMEM => 0x4000000c,
            Code::EACCES => 0x4000000d,
            Code::EFAULT => 0x4000000e,
            Code::ENOTBLK => 0x4000000f,
            Code::EBUSY => 0x40000010,
            Code::EEXIST => 0x40000011,
            Code::EXDEV => 0x40000012,
            Code::ENODEV => 0x40000013,
            Code::ENOTDIR => 0x40000014,
            Code::EISDIR => 0x40000015,
            Code::EINVAL => 0x40000016,
            Code::EMFILE => 0x40000018,
            Code::ENFILE => 0x40000017,
            Code::ENOTTY => 0x40000019,
            Code::ETXTBSY => 0x4000001a,
            Code::EFBIG => 0x4000001b,
            Code::ENOSPC => 0x4000001c,
            Code::ESPIPE => 0x4000001d,
            Code::EROFS => 0x4000001e,
            Code::EMLINK => 0x4000001f,
            Code::EPIPE => 0x40000020,
            Code::EDOM => 0x40000021,
            Code::ERANGE => 0x40000022,
            Code::EAGAIN => 0x40000023,
            Code::EINPROGRESS => 0x40000024,
            Code::EALREADY => 0x40000025,
            Code::ENOTSOCK => 0x40000026,
            Code::EMSGSIZE => 0x40000028,
            Code::EPROTOTYPE => 0x40000029,
            Code::ENOPROTOOPT => 0x4000002a,
            Code::EPROTONOSUPPORT => 0x4000002b,
            Code::ESOCKTNOSUPPORT => 0x4000002c,
            Code::EOPNOTSUPP => 0x4000002d,
            Code::EPFNOSUPPORT => 0x4000002e,
            Code::EAFNOSUPPORT => 0x4000002f,
            Code::EADDRINUSE => 0x40000030,
            Code::EADDRNOTAVAIL => 0x40000031,
            Code::ENETDOWN => 0x40000032,
            Code::ENETUNREACH => 0x40000033,
            Code::ENETRESET => 0x40000034,
            Code::ECONNABORTED => 0x40000035,
            Code::ECONNRESET => 0x40000036,
            Code::ENOBUFS => 0x40000037,
            Code::EISCONN => 0x40000038,
            Code::ENOTCONN => 0x40000039,
            Code::EDESTADDRREQ => 0x40000027,
            Code::ESHUTDOWN => 0x4000003a,
            Code::ETOOMANYREFS => 0x4000003b,
            Code::ETIMEDOUT => 0x4000003c,
            Code::ECONNREFUSED => 0x4000003d,
            Code::ELOOP => 0x4000003e,
            Code::ENAMETOOLONG => 0x4000003f,
            Code::EHOSTDOWN => 0x40000040,
            Code::EHOSTUNREACH => 0x40000041,
            Code::ENOTEMPTY => 0x40000042,
            Code::EPROCLIM => 0x40000043,
            Code::EUSERS => 0x40000044,
            Code::EDQUOT => 0x40000045,
            Code::ESTALE => 0x40000046,
            Code::EREMOTE => 0x40000047,
            Code::EBADRPC => 0x40000048,
            Code::ERPCMISMATCH => 0x40000049,
            Code::EPROGUNAVAIL => 0x4000004a,
            Code::EPROGMISMATCH => 0x4000004b,
            Code::EPROCUNAVAIL => 0x4000004c,
            Code::ENOLCK => 0x4000004d,
            Code::EFTYPE => 0x4000004f,
            Code::EAUTH => 0x40000050,
            Code::ENEEDAUTH => 0x40000051,
            Code::ENOSYS => 0x4000004e,
            Code::ELIBEXEC => 0x40000053,
            Code::ENOTSUP => 0x40000076,
            Code::EILSEQ => 0x4000006a,
            Code::EBACKGROUND => 0x40000064,
            Code::EDIED => 0x40000065,
            Code::ED => 0x40000066,
            Code::EGREGIOUS => 0x40000067,
            Code::EIEIO => 0x40000068,
            Code::EGRATUITOUS => 0x40000069,
            Code::EBADMSG => 0x4000006b,
            Code::EIDRM => 0x4000006c,
            Code::EMULTIHOP => 0x4000006d,
            Code::ENODATA => 0x4000006e,
            Code::ENOLINK => 0x4000006f,
            Code::ENOMSG => 0x40000070,
            Code::ENOSR => 0x40000071,
            Code::ENOSTR => 0x40000072,
            Code::EOVERFLOW => 0x40000073,
            Code::EPROTO => 0x40000074,
            Code::ETIME => 0x40000075,
            Code::ECANCELED => 0x40000077,
            Code::EOWNERDEAD => 0x40000078,
            Code::ENOTRECOVERABLE => 0x40000079,
            Code::EMACH_SEND_IN_PROGRESS => 0x10000001,
            Code::EMACH_SEND_INVALID_DATA => 0x10000002,
            Code::EMACH_SEND_INVALID_DEST => 0x10000003,
            Code::EMACH_SEND_TIMED_OUT => 0x10000004,
            Code::EMACH_SEND_WILL_NOTIFY => 0x10000005,
            Code::EMACH_SEND_NOTIFY_IN_PROGRESS => 0x10000006,
            Code::EMACH_SEND_INTERRUPTED => 0x10000007,
            Code::EMACH_SEND_MSG_TOO_SMALL => 0x10000008,
            Code::EMACH_SEND_INVALID_REPLY => 0x10000009,
            Code::EMACH_SEND_INVALID_RIGHT => 0x1000000a,
            Code::EMACH_SEND_INVALID_NOTIFY => 0x1000000b,
            Code::EMACH_SEND_INVALID_MEMORY => 0x1000000c,
            Code::EMACH_SEND_NO_BUFFER => 0x1000000d,
            Code::EMACH_SEND_NO_NOTIFY => 0x1000000e,
            Code::EMACH_SEND_INVALID_TYPE => 0x1000000f,
            Code::EMACH_SEND_INVALID_HEADER => 0x10000010,
            Code::EMACH_RCV_IN_PROGRESS => 0x10004001,
            Code::EMACH_RCV_INVALID_NAME => 0x10004002,
            Code::EMACH_RCV_TIMED_OUT => 0x10004003,
            Code::EMACH_RCV_TOO_LARGE => 0x10004004,
            Code::EMACH_RCV_INTERRUPTED => 0x10004005,
            Code::EMACH_RCV_PORT_CHANGED => 0x10004006,
            Code::EMACH_RCV_INVALID_NOTIFY => 0x10004007,
            Code::EMACH_RCV_INVALID_DATA => 0x10004008,
            Code::EMACH_RCV_PORT_DIED => 0x10004009,
            Code::EMACH_RCV_IN_SET => 0x1000400a,
            Code::EMACH_RCV_HEADER_ERROR => 0x1000400b,
            Code::EMACH_RCV_BODY_ERROR => 0x1000400c,
            Code::EKERN_INVALID_ADDRESS => 1,
            Code::EKERN_PROTECTION_FAILURE => 2,
            Code::EKERN_NO_SPACE => 3,
            Code::EKERN_INVALID_ARGUMENT => 4,
            Code::EKERN_FAILURE => 5,
            Code::EKERN_RESOURCE_SHORTAGE => 6,
            Code::EKERN_NOT_RECEIVER => 7,
            Code::EKERN_NO_ACCESS => 8,
            Code::EKERN_MEMORY_FAILURE => 9,
            Code::EKERN_MEMORY_ERROR => 10,
            Code::EKERN_NOT_IN_SET => 12,
            Code::EKERN_NAME_EXISTS => 13,
            Code::EKERN_ABORTED => 14,
            Code::EKERN_INVALID_NAME => 15,
            Code::EKERN_INVALID_TASK => 16,
            Code::EKERN_INVALID_RIGHT => 17,
            Code::EKERN_INVALID_VALUE => 18,
            Code::EKERN_UREFS_OVERFLOW => 19,
            Code::EKERN_INVALID_CAPABILITY => 20,
            Code::EKERN_RIGHT_EXISTS => 21,
            Code::EKERN_INVALID_HOST => 22,
            Code::EKERN_MEMORY_PRESENT => 23,
            Code::EKERN_WRITE_PROTECTION_FAILURE => 24,
            Code::EKERN_TERMINATED => 26,
            Code::EKERN_TIMEDOUT => 27,
            Code::EKERN_INTERRUPTED => 28,
            Code::EMIG_TYPE_ERROR => -300,
            Code::EMIG_REPLY_MISMATCH => -301,
            Code::EMIG_REMOTE_ERROR => -302,
            Code::EMIG_BAD_ID => -303,
            Code::EMIG_BAD_ARGUMENTS => -304,
            Code::EMIG_NO_REPLY => -305,
            Code::EMIG_EXCEPTION => -306,
            Code::EMIG_ARRAY_TOO_LARGE => -307,
            Code::EMIG_SERVER_DIED => -308,
            Code::EMIG_DESTROY_REQUEST => -309,
            Code::ED_IO_ERROR => 2500,
            Code::ED_WOULD_BLOCK => 2501,
            Code::ED_NO_SUCH_DEVICE => 2502,
            Code::ED_ALREADY_OPEN => 2503,
            Code::ED_DEVICE_DOWN => 2504,
            Code::ED_INVALID_OPERATION => 2505,
            Code::ED_INVALID_RECNUM => 2506,
            Code::ED_INVALID_SIZE => 2507,
            Code::ED_NO_MEMORY => 2508,
            Code::ED_READ_ONLY => 2509,
        }
    }

    /// Returns the magnitude of this code's integer.
    pub fn to_u64(self) -> (r: u64)
        ensures
            r == code_to_u64(self),
    {
        let n = self.to_i32();
        if n < 0 {
            assert(n != i32::MIN);
            (-n) as u64
        } else {
            n as u64
        }
    }

    /// Returns the low byte of this code's magnitude, without the family bits.
    pub fn to_u8(self) -> (r: u8)
        ensures
            r == code_to_u8(self),
    {
        (self.to_u64() & !0x40000000u64 & !0x10000000u64) as u8
    }

    /// Returns the description of this code.
    pub fn desc(self) -> (r: &'static str)
        ensures
            r@ == code_desc(self),
    {
        match self {
            Code::EPERM => "Operation not permitted",
            Code::ENOENT => "No such file or directory",
            Code::ESRCH => "No such process",
            Code::EINTR => "Interrupted system call",
            Code::EIO => "Input/output error",
            Code::ENXIO => "No such device or address",
            Code::E2BIG => "Argument list too long",
            Code::ENOEXEC => "Exec format error",
            Code::EBADF => "Bad file descriptor",
            Code::ECHILD => "No child processes",
            Code::EDEADLK => "Resource deadlock avoided",
            Code::ENOMEM => "Cannot allocate memory",
            Code::EACCES => "Permission denied",
            Code::EFAULT => "Bad address",
            Code::ENOTBLK => "Block device required",
            Code::EBUSY => "Device or resource busy",
            Code::EEXIST => "File exists",
            Code::EXDEV => "Invalid cross-device link",
            Code::ENODEV => "No such device",
            Code::ENOTDIR => "Not a directory",
            Code::EISDIR => "Is a directory",
            Code::EINVAL => "Invalid argument",
            Code::EMFILE => "Too many open files",
            Code::ENFILE => "Too many open files in system",
            Code::ENOTTY => "Inappropriate ioctl for device",
            Code::ETXTBSY => "Text file busy",
            Code::EFBIG => "File too large",
            Code::ENOSPC => "No space left on device",
            Code::ESPIPE => "Illegal seek",
            Code::EROFS => "Read-only file system",
            Code::EMLINK => "Too many links",
            Code::EPIPE => "Broken pipe",
            Code::EDOM => "Numerical argument out of domain",
            Code::ERANGE => "Numerical result out of range",
            Code::EAGAIN => "Resource temporarily unavailable",
            Code::EINPROGRESS => "Operation now in progress",
            Code::EALREADY => "Operation already in progress",
            Code::ENOTSOCK => "Socket operation on non-socket",
            Code::EMSGSIZE => "Message too long",
            Code::EPROTOTYPE => "Protocol wrong type for socket",
            Code::ENOPROTOOPT => "Protocol not available",
            Code::EPROTONOSUPPORT => "Protocol not supported",
            Code::ESOCKTNOSUPPORT => "Socket type not supported",
            Code::EOPNOTSUPP => "Operation not supported",
            Code::EPFNOSUPPORT => "Protocol family not supported",
            Code::EAFNOSUPPORT => "Address family not supported by protocol",
            Code::EADDRINUSE => "Address already in use",
            Code::EADDRNOTAVAIL => "Cannot assign requested address",
            Code::ENETDOWN => "Network is down",
            Code::ENETUNREACH => "Network is unreachable",
            Code::ENETRESET => "Network dropped connection on reset",
            Code::ECONNABORTED => "Software caused connection abort",
            Code::ECONNRESET => "Connection reset by peer",
            Code::ENOBUFS => "No buffer space available",
            Code::EISCONN => "Transport endpoint is already connected",
            Code::ENOTCONN => "Transport endpoint is not connected",
            Code::EDESTADDRREQ => "Destination address required",
            Code::ESHUTDOWN => "Cannot send after transport endpoint shutdown",
            Code::ETOOMANYREFS => "Too many references: cannot splice",
            Code::ETIMEDOUT => "Connection timed out",
            Code::ECONNREFUSED => "Connection refused",
            Code::ELOOP => "Too many levels of symbolic links",
            Code::ENAMETOOLONG => "File name too long",
            Code::EHOSTDOWN => "Host is down",
            Code::EHOSTUNREACH => "No route to host",
            Code::ENOTEMPTY => "Directory not empty",
            Code::EPROCLIM => "Too many processes",
            Code::EUSERS => "Too many users",
            Code::EDQUOT => "Disk quota exceeded",
            Code::ESTALE => "Stale file handle",
            Code::EREMOTE => "Object is remote",
            Code::EBADRPC => "RPC struct is bad",
            Code::ERPCMISMATCH => "RPC version wrong",
            Code::EPROGUNAVAIL => "RPC program not available",
            Code::EPROGMISMATCH => "RPC program version wrong",
            Code::EPROCUNAVAIL => "RPC bad procedure for program",
            Code::ENOLCK => "No locks available",
            Code::EFTYPE => "Inappropriate file type or format",
            Code::EAUTH => "Authentication error",
            Code::ENEEDAUTH => "Need authenticator",
            Code::ENOSYS => "Function not implemented",
            Code::ELIBEXEC => "Cannot exec a shared library directly",
            Code::ENOTSUP => "Not supported",
            Code::EILSEQ => "Invalid or incomplete multibyte or wide character",
            Code::EBACKGROUND => "Inappropriate operation for background process",
            Code::EDIED => "Translator died",
            Code::ED => "?",
            Code::EGREGIOUS => "You really blew it this time",
            Code::EIEIO => "Computer bought the farm",
            Code::EGRATUITOUS => "Gratuitous error",
            Code::EBADMSG => "Bad message",
            Code::EIDRM => "Identifier removed",
            Code::EMULTIHOP => "Multihop attempted",
            Code::ENODATA => "No data available",
            Code::ENOLINK => "Link has been severed",
            Code::ENOMSG => "No message of desired type",
            Code::ENOSR => "Out of streams resources",
            Code::ENOSTR => "Device not a stream",
            Code::EOVERFLOW => "Value too large for defined data type",
            Code::EPROTO => "Protocol error",
            Code::ETIME => "Timer expired",
            Code::ECANCELED => "Operation canceled",
            Code::EOWNERDEAD => "Owner died",
            Code::ENOTRECOVERABLE => "State not recoverable",
            Code::EMACH_SEND_IN_PROGRESS => "emach send in progress",
            Code::EMACH_SEND_INVALID_DATA => "emach send invalid data",
            Code::EMACH_SEND_INVALID_DEST => "emach send invalid dest",
            Code::EMACH_SEND_TIMED_OUT => "emach send timed out",
            Code::EMACH_SEND_WILL_NOTIFY => "emach send will notify",
            Code::EMACH_SEND_NOTIFY_IN_PROGRESS => "emach send notify in progress",
            Code::EMACH_SEND_INTERRUPTED => "emach send interrupted",
            Code::EMACH_SEND_MSG_TOO_SMALL => "emach send msg too small",
            Code::EMACH_SEND_INVALID_REPLY => "emach send invalid reply",
            Code::EMACH_SEND_INVALID_RIGHT => "emach send invalid right",
            Code::EMACH_SEND_INVALID_NOTIFY => "emach send invalid notify",
            Code::EMACH_SEND_INVALID_MEMORY => "emach send invalid memory",
            Code::EMACH_SEND_NO_BUFFER => "emach send no buffer",
            Code::EMACH_SEND_NO_NOTIFY => "emach send no notify",
            Code::EMACH_SEND_INVALID_TYPE => "emach send invalid type",
            Code::EMACH_SEND_INVALID_HEADER => "emach send invalid header",
            Code::EMACH_RCV_IN_PROGRESS => "emach rcv in progress",
            Code::EMACH_RCV_INVALID_NAME => "emach rcv invalid name",
            Code::EMACH_RCV_TIMED_OUT => "emach rcv timed out",
            Code::EMACH_RCV_TOO_LARGE => "emach rcv too large",
            Code::EMACH_RCV_INTERRUPTED => "emach rcv interrupted",
            Code::EMACH_RCV_PORT_CHANGED => "emach rcv port changed",
            Code::EMACH_RCV_INVALID_NOTIFY => "emach rcv invalid notify",
            Code::EMACH_RCV_INVALID_DATA => "emach rcv invalid data",
            Code::EMACH_RCV_PORT_DIED => "emach rcv port died",
            Code::EMACH_RCV_IN_SET => "emach rcv in set",
            Code::EMACH_RCV_HEADER_ERROR => "emach rcv header error",
            Code::EMACH_RCV_BODY_ERROR => "emach rcv body error",
            Code::EKERN_INVALID_ADDRESS => "ekern invalid address",
            Code::EKERN_PROTECTION_FAILURE => "ekern protection failure",
            Code::EKERN_NO_SPACE => "ekern no space",
            Code::EKERN_INVALID_ARGUMENT => "ekern invalid argument",
            Code::EKERN_FAILURE => "ekern failure",
            Code::EKERN_RESOURCE_SHORTAGE => "ekern resource shortage",
            Code::EKERN_NOT_RECEIVER => "ekern not receiver",
            Code::EKERN_NO_ACCESS => "ekern no access",
            Code::EKERN_MEMORY_FAILURE => "ekern memory failure",
            Code::EKERN_MEMORY_ERROR => "ekern memory error",
            Code::EKERN_NOT_IN_SET => "ekern not in set",
            Code::EKERN_NAME_EXISTS => "ekern name exists",
            Code::EKERN_ABORTED => "ekern aborted",
            Code::EKERN_INVALID_NAME => "ekern invalid name",
            Code::EKERN_INVALID_TASK => "ekern invalid task",
            Code::EKERN_INVALID_RIGHT => "ekern invalid right",
            Code::EKERN_INVALID_VALUE => "ekern invalid value",
            Code::EKERN_UREFS_OVERFLOW => "ekern urefs overflow",
            Code::EKERN_INVALID_CAPABILITY => "ekern invalid capability",
            Code::EKERN_RIGHT_EXISTS => "ekern right exists",
            Code::EKERN_INVALID_HOST => "ekern invalid host",
            Code::EKERN_MEMORY_PRESENT => "ekern memory present",
            Code::EKERN_WRITE_PROTECTION_FAILURE => "ekern write protection failure",
            Code::EKERN_TERMINATED => "ekern terminated",
            Code::EKERN_TIMEDOUT => "ekern timedout",
            Code::EKERN_INTERRUPTED => "ekern interrupted",
            Code::EMIG_TYPE_ERROR => "client type check failure",
            Code::EMIG_REPLY_MISMATCH => "wrong reply message ID",
            Code::EMIG_REMOTE_ERROR => "server detected error",
            Code::EMIG_BAD_ID => "bad request message ID",
            Code::EMIG_BAD_ARGUMENTS => "server type check failure",
            Code::EMIG_NO_REPLY => "no reply should be sent",
            Code::EMIG_EXCEPTION => "server raised exception",
            Code::EMIG_ARRAY_TOO_LARGE => "array not large enough",
            Code::EMIG_SERVER_DIED => "server died",
            Code::EMIG_DESTROY_REQUEST => "destroy request with no reply",
            Code::ED_IO_ERROR => "hardware IO error",
            Code::ED_WOULD_BLOCK => "would block, but D_NOWAIT set",
            Code::ED_NO_SUCH_DEVICE => "no such device",
            Code::ED_ALREADY_OPEN => "exclusive-use device already open",
            Code::ED_DEVICE_DOWN => "device has been shut down",
            Code::ED_INVALID_OPERATION => "bad operation for device",
            Code::ED_INVALID_RECNUM => "invalid record (block) number",
            Code::ED_INVALID_SIZE => "invalid IO size",
            Code::ED_NO_MEMORY => "memory allocation failure",
            Code::ED_READ_ONLY => "device cannot be written to",
        }
    }

    /// Returns the code whose integer is `code`, if there is one.
    pub fn from_i32(code: i32) -> (r: Option<Code>)
        ensures
            r == code_from_i32(code),
    {
        match code {
            0x40000001 => Some(Code::EPERM),
            0x40000002 => Some(Code::ENOENT),
            0x40000003 => Some(Code::ESRCH),
            0x40000004 => Some(Code::EINTR),
            0x40000005 => Some(Code::EIO),
            0x40000006 => Some(Code::ENXIO),
            0x40000007 => Some(Code::E2BIG),
            0x40000008 => Some(Code::ENOEXEC),
            0x40000009 => Some(Code::EBADF),
            0x4000000a => Some(Code::ECHILD),
            0x4000000b => Some(Code::EDEADLK),
            0x4000000c => Some(Code::ENOMEM),
            0x4000000d => Some(Code::EACCES),
            0x4000000e => Some(Code::EFAULT),
            0x4000000f => Some(Code::ENOTBLK),
            0x40000010 => Some(Code::EBUSY),
            0x40000011 => Some(Code::EEXIST),
            0x40000012 => Some(Code::EXDEV),
            0x40000013 => Some(Code::ENODEV),
            0x40000014 => Some(Code::ENOTDIR),
            0x40000015 => Some(Code::EISDIR),
            0x40000016 => Some(Code::EINVAL),
            0x40000018 => Some(Code::EMFILE),
            0x40000017 => Some(Code::ENFILE),
            0x40000019 => Some(Code::ENOTTY),
            0x4000001a => Some(Code::ETXTBSY),
            0x4000001b => Some(Code::EFBIG),
            0x4000001c => Some(Code::ENOSPC),
            0x4000001d => Some(Code::ESPIPE),
            0x4000001e => Some(Code::EROFS),
            0x4000001f => Some(Code::EMLINK),
            0x40000020 => Some(Code::EPIPE),
            0x40000021 => Some(Code::EDOM),
            0x40000022 => Some(Code::ERANGE),
            0x40000023 => Some(Code::EAGAIN),
            0x40000024 => Some(Code::EINPROGRESS),
            0x40000025 => Some(Code::EALREADY),
            0x40000026 => Some(Code::ENOTSOCK),
            0x40000028 => Some(Code::EMSGSIZE),
            0x40000029 => Some(Code::EPROTOTYPE),
            0x4000002a => Some(Code::ENOPROTOOPT),
            0x4000002b => Some(Code::EPROTONOSUPPORT),
            0x4000002c => Some(Code::ESOCKTNOSUPPORT),
            0x4000002d => Some(Code::EOPNOTSUPP),
            0x4000002e => Some(Code::EPFNOSUPPORT),
            0x4000002f => Some(Code::EAFNOSUPPORT),
            0x40000030 => Some(Code::EADDRINUSE),
            0x40000031 => Some(Code::EADDRNOTAVAIL),
            0x40000032 => Some(Code::ENETDOWN),
            0x40000033 => Some(Code::ENETUNREACH),
            0x40000034 => Some(Code::ENETRESET),
            0x40000035 => Some(Code::ECONNABORTED),
            0x40000036 => Some(Code::ECONNRESET),
            0x40000037 => Some(Code::ENOBUFS),
            0x40000038 => Some(Code::EISCONN),
            0x40000039 => Some(Code::ENOTCONN),
            0x40000027 => Some(Code::EDESTADDRREQ),
            0x4000003a => Some(Code::ESHUTDOWN),
            0x4000003b => Some(Code::ETOOMANYREFS),
            0x4000003c => Some(Code::ETIMEDOUT),
            0x4000003d => Some(Code::ECONNREFUSED),
            0x4000003e => Some(Code::ELOOP),
            0x4000003f => Some(Code::ENAMETOOLONG),
            0x40000040 => Some(Code::EHOSTDOWN),
            0x40000041 => Some(Code::EHOSTUNREACH),
            0x40000042 => Some(Code::ENOTEMPTY),
            0x40000043 => Some(Code::EPROCLIM),
            0x40000044 => Some(Code::EUSERS),
            0x40000045 => Some(Code::EDQUOT),
            0x40000046 => Some(Code::ESTALE),
            0x40000047 => Some(Code::EREMOTE),
            0x40000048 => Some(Code::EBADRPC),
            0x40000049 => Some(Code::ERPCMISMATCH),
            0x4000004a => Some(Code::EPROGUNAVAIL),
            0x4000004b => Some(Code::EPROGMISMATCH),
            0x4000004c => Some(Code::EPROCUNAVAIL),
            0x4000004d => Some(Code::ENOLCK),
            0x4000004f => Some(Code::EFTYPE),
            0x40000050 => Some(Code::EAUTH),
            0x40000051 => Some(Code::ENEEDAUTH),
            0x4000004e => Some(Code::ENOSYS),
            0x40000053 => Some(Code::ELIBEXEC),
            0x40000076 => Some(Code::ENOTSUP),
            0x4000006a => Some(Code::EILSEQ),
            0x40000064 => Some(Code::EBACKGROUND),
            0x40000065 => Some(Code::EDIED),
            0x40000066 => Some(Code::ED),
            0x40000067 => Some(Code::EGREGIOUS),
            0x40000068 => Some(Code::EIEIO),
            0x40000069 => Some(Code::EGRATUITOUS),
            0x4000006b => Some(Code::EBADMSG),
            0x4000006c => Some(Code::EIDRM),
            0x4000006d => Some(Code::EMULTIHOP),
            0x4000006e => Some(Code::ENODATA),
            0x4000006f => Some(Code::ENOLINK),
            0x40000070 => Some(Code::ENOMSG),
            0x40000071 => Some(Code::ENOSR),
            0x40000072 => Some(Code::ENOSTR),
            0x40000073 => Some(Code::EOVERFLOW),
            0x40000074 => Some(Code::EPROTO),
            0x40000075 => Some(Code::ETIME),
            0x40000077 => Some(Code::ECANCELED),
            0x40000078 => Some(Code::EOWNERDEAD),
            0x40000079 => Some(Code::ENOTRECOVERABLE),
            0x10000001 => Some(Code::EMACH_SEND_IN_PROGRESS),
            0x10000002 => Some(Code::EMACH_SEND_INVALID_DATA),
            0x10000003 => Some(Code::EMACH_SEND_INVALID_DEST),
            0x10000004 => Some(Code::EMACH_SEND_TIMED_OUT),
            0x10000005 => Some(Code::EMACH_SEND_WILL_NOTIFY),
            0x10000006 => Some(Code::EMACH_SEND_NOTIFY_IN_PROGRESS),
            0x10000007 => Some(Code::EMACH_SEND_INTERRUPTED),
            0x10000008 => Some(Code::EMACH_SEND_MSG_TOO_SMALL),
            0x10000009 => Some(Code::EMACH_SEND_INVALID_REPLY),
            0x1000000a => Some(Code::EMACH_SEND_INVALID_RIGHT),
            0x1000000b => Some(Code::EMACH_SEND_INVALID_NOTIFY),
            0x1000000c => Some(Code::EMACH_SEND_INVALID_MEMORY),
            0x1000000d => Some(Code::EMACH_SEND_NO_BUFFER),
            0x1000000e => Some(Code::EMACH_SEND_NO_NOTIFY),
            0x1000000f => Some(Code::EMACH_SEND_INVALID_TYPE),
            0x10000010 => Some(Code::EMACH_SEND_INVALID_HEADER),
            0x10004001 => Some(Code::EMACH_RCV_IN_PROGRESS),
            0x10004002 => Some(Code::EMACH_RCV_INVALID_NAME),
            0x10004003 => Some(Code::EMACH_RCV_TIMED_OUT),
            0x10004004 => Some(Code::EMACH_RCV_TOO_LARGE),
            0x10004005 => Some(Code::EMACH_RCV_INTERRUPTED),
            0x10004006 => Some(Code::EMACH_RCV_PORT_CHANGED),
            0x10004007 => Some(Code::EMACH_RCV_INVALID_NOTIFY),
            0x10004008 => Some(Code::EMACH_RCV_INVALID_DATA),
            0x10004009 => Some(Code::EMACH_RCV_PORT_DIED),
            0x1000400a => Some(Code::EMACH_RCV_IN_SET),
            0x1000400b => Some(Code::EMACH_RCV_HEADER_ERROR),
            0x1000400c => Some(Code::EMACH_RCV_BODY_ERROR),
            1 => Some(Code::EKERN_INVALID_ADDRESS),
            2 => Some(Code::EKERN_PROTECTION_FAILURE),
            3 => Some(Code::EKERN_NO_SPACE),
            4 => Some(Code::EKERN_INVALID_ARGUMENT),
            5 => Some(Code::EKERN_FAILURE),
            6 => Some(Code::EKERN_RESOURCE_SHORTAGE),
            7 => Some(Code::EKERN_NOT_RECEIVER),
            8 => Some(Code::EKERN_NO_ACCESS),
            9 => Some(Code::EKERN_MEMORY_FAILURE),
            10 => Some(Code::EKERN_MEMORY_ERROR),
            12 => Some(Code::EKERN_NOT_IN_SET),
            13 => Some(Code::EKERN_NAME_EXISTS),
            14 => Some(Code::EKERN_ABORTED),
            15 => Some(Code::EKERN_INVALID_NAME),
            16 => Some(Code::EKERN_INVALID_TASK),
            17 => Some(Code::EKERN_INVALID_RIGHT),
            18 => Some(Code::EKERN_INVALID_VALUE),
            19 => Some(Code::EKERN_UREFS_OVERFLOW),
            20 => Some(Code::EKERN_INVALID_CAPABILITY),
            21 => Some(Code::EKERN_RIGHT_EXISTS),
            22 => Some(Code::EKERN_INVALID_HOST),
            23 => Some(Code::EKERN_MEMORY_PRESENT),
            24 => Some(Code::EKERN_WRITE_PROTECTION_FAILURE),
            26 => Some(Code::EKERN_TERMINATED),
            27 => Some(Code::EKERN_TIMEDOUT),
            28 => Some(Code::EKERN_INTERRUPTED),
            -300 => Some(Code::EMIG_TYPE_ERROR),
            -301 => Some(Code::EMIG_REPLY_MISMATCH),
            -302 => Some(Code::EMIG_REMOTE_ERROR),
            -303 => Some(Code::EMIG_BAD_ID),
            -304 => Some(Code::EMIG_BAD_ARGUMENTS),
            -305 => Some(Code::EMIG_NO_REPLY),
            -306 => Some(Code::EMIG_EXCEPTION),
            -307 => Some(Code::EMIG_ARRAY_TOO_LARGE),
            -308 => Some(Code::EMIG_SERVER_DIED),
            -309 => Some(Code::EMIG_DESTROY_REQUEST),
            2500 => Some(Code::ED_IO_ERROR),
            2501 => Some(Code::ED_WOULD_BLOCK),
            2502 => Some(Code::ED_NO_SUCH_DEVICE),
            2503 => Some(Code::ED_ALREADY_OPEN),
            2504 => Some(Code::ED_DEVICE_DOWN),
            2505 => Some(Code::ED_INVALID_OPERATION),
            2506 => Some(Code::ED_INVALID_RECNUM),
            2507 => Some(Code::ED_INVALID_SIZE),
            2508 => Some(Code::ED_NO_MEMORY),
            2509 => Some(Code::ED_READ_ONLY),
            _ => None,
        }
    }

    /// Returns the code of a kind of I/O failure, if it has one.
    pub fn from_error_kind(kind: ErrorKind) -> (r: Option<Code>)
        ensures
            r == code_of_error_kind(kind),
    {
        match kind {
            ErrorKind::AddrInUse => Some(Code::EADDRINUSE),
            ErrorKind::AddrNotAvailable => Some(Code::EADDRNOTAVAIL),
            ErrorKind::AlreadyExists => Some(Code::EEXIST),
            ErrorKind::ArgumentListTooLong => Some(Code::E2BIG),
            ErrorKind::BrokenPipe => Some(Code::EPIPE),
            ErrorKind::ConnectionAborted => Some(Code::ECONNABORTED),
            ErrorKind::ConnectionRefused => Some(Code::ECONNREFUSED),
            ErrorKind::ConnectionReset => Some(Code::ENETRESET),
            ErrorKind::CrossesDevices => Some(Code::EXDEV),
            ErrorKind::Deadlock => Some(Code::EDEADLK),
            ErrorKind::DirectoryNotEmpty => Some(Code::ENOTEMPTY),
            ErrorKind::ExecutableFileBusy => Some(Code::EBUSY),
            ErrorKind::FileTooLarge => Some(Code::EFBIG),
            ErrorKind::FilesystemLoop => Some(Code::ELOOP),
            ErrorKind::QuotaExceeded => Some(Code::EDQUOT),
            ErrorKind::HostUnreachable => Some(Code::EHOSTUNREACH),
            ErrorKind::InProgress => Some(Code::EINPROGRESS),
            ErrorKind::Interrupted => Some(Code::EINTR),
            ErrorKind::InvalidData => Some(Code::EINVAL),
            ErrorKind::InvalidFilename => Some(Code::EMSGSIZE),
            ErrorKind::InvalidInput => Some(Code::EINVAL),
            ErrorKind::IsADirectory => Some(Code::EISDIR),
            ErrorKind::NetworkDown => Some(Code::ENETDOWN),
            ErrorKind::NetworkUnreachable => Some(Code::ENETUNREACH),
            ErrorKind::NotADirectory => Some(Code::ENOTDIR),
            ErrorKind::NotConnected => Some(Code::ENOTCONN),
            ErrorKind::NotFound => Some(Code::ENOENT),
            ErrorKind::NotSeekable => Some(Code::ESPIPE),
            ErrorKind::OutOfMemory => Some(Code::ENOMEM),
            ErrorKind::PermissionDenied => Some(Code::EACCES),
            ErrorKind::ReadOnlyFilesystem => Some(Code::EROFS),
            ErrorKind::ResourceBusy => Some(Code::EBUSY),
            ErrorKind::StaleNetworkFileHandle => Some(Code::ENETUNREACH),
            ErrorKind::StorageFull => Some(Code::EDQUOT),
            ErrorKind::TimedOut => Some(Code::ETIMEDOUT),
            ErrorKind::TooManyLinks => Some(Code::EMLINK),
            ErrorKind::UnexpectedEof => Some(Code::ED_INVALID_SIZE),
            ErrorKind::Unsupported => Some(Code::EOPNOTSUPP),
            ErrorKind::WouldBlock => Some(Code::ED_WOULD_BLOCK),
            ErrorKind::WriteZero => Some(Code::ED_INVALID_SIZE),
            ErrorKind::Other => None,
        }
    }
}

/// Reading a code back from its integer gives the same code.
pub proof fn lemma_code_i32_roundtrip(c: Code)
    ensures
        code_from_i32(code_to_i32(c)) == Some(c),
{
}

/// Every integer that names a code is that code's integer: no two codes share one.
pub proof fn lemma_code_from_i32_inverse(n: i32)
    ensures
        code_from_i32(n) matches Some(c) ==> code_to_i32(c) == n,
{
}

} // verus!
