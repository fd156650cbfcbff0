use vstd::prelude::*;

verus! {

/// The integer type that the request of a WASI call declares for one argument.
#[derive(Clone, Copy, Debug, PartialEq, Eq, Structural)]
pub enum IntKind {
    I32,
    I64,
    U8,
    U32,
    U64,
}

/// The least value of an argument of kind `k`.
pub open spec fn kind_min(k: IntKind) -> int {
    match k {
        IntKind::I32 => i32::MIN as int,
        IntKind::I64 => i64::MIN as int,
        IntKind::U8 => 0,
        IntKind::U32 => 0,
        IntKind::U64 => 0,
    }
}

/// The greatest value of an argument of kind `k`.
pub open spec fn kind_max(k: IntKind) -> int {
    match k {
        IntKind::I32 => i32::MAX as int,
        IntKind::I64 => i64::MAX as int,
        IntKind::U8 => u8::MAX as int,
        IntKind::U32 => u32::MAX as int,
        IntKind::U64 => u64::MAX as int,
    }
}

/// Whether `v` is a value of kind `k`.
pub open spec fn fits_kind(k: IntKind, v: int) -> bool {
    kind_min(k) <= v <= kind_max(k)
}

impl IntKind {
    /// Whether `v` is a value of this kind.
    pub fn admits(&self, v: i128) -> (r: bool)
        ensures
            r == fits_kind(*self, v as int),
    {
        match self {
            IntKind::I32 => -2147483648i128 <= v && v <= 2147483647i128,
            IntKind::I64 => -9223372036854775808i128 <= v && v <= 9223372036854775807i128,
            IntKind::U8 => 0i128 <= v && v <= 255i128,
            IntKind::U32 => 0i128 <= v && v <= 4294967295i128,
            IntKind::U64 => 0i128 <= v && v <= 18446744073709551615i128,
        }
    }
}

/// The calls of WASI preview 1 that a `Wasi` instance serves.
#[derive(Clone, Copy, Debug, PartialEq, Eq, Structural)]
pub enum Method {
    ArgsGet,
    ArgsSizesGet,
    EnvironGet,
    EnvironSizesGet,
    ClockResGet,
    ClockTimeGet,
    FdAdvise,
    FdAllocate,
    FdClose,
    FdDatasync,
    FdFdstatGet,
    FdFdstatSetFlags,
    FdFdstatSetRights,
    FdFilestatGet,
    FdFilestatSetSize,
    FdFilestatSetTimes,
    FdPread,
    FdPrestatGet,
    FdPrestatDirName,
    FdPwrite,
    FdRead,
    FdReaddir,
    FdRenumber,
    FdSeek,
    FdSync,
    FdTell,
    FdWrite,
    PathCreateDirectory,
    PathFilestatGet,
    PathFilestatSetTimes,
    PathLink,
    PathOpen,
    PathReadlink,
    PathRemoveDirectory,
    PathRename,
    PathSymlink,
    PathUnlinkFile,
    PollOneoff,
    ProcExit,
    ProcRaise,
    SchedYield,
    RandomGet,
    SockAccept,
    SockRecv,
    SockSend,
    SockShutdown,
}

/// The argument kinds, in order, of the JSON array that the request of `m` holds.
pub open spec fn signature(m: Method) -> Seq<IntKind> {
    match m {
        Method::ArgsGet => seq![IntKind::I32, IntKind::I32],
        Method::ArgsSizesGet => seq![IntKind::I32, IntKind::I32],
        Method::EnvironGet => seq![IntKind::I32, IntKind::I32],
        Method::EnvironSizesGet => seq![IntKind::I32, IntKind::I32],
        Method::ClockResGet => seq![IntKind::I32, IntKind::I32],
        Method::ClockTimeGet => seq![IntKind::I32, IntKind::I64, IntKind::I32],
        Method::FdAdvise => seq![IntKind::I32, IntKind::I64, IntKind::I64, IntKind::I32],
        Method::FdAllocate => seq![IntKind::I32, IntKind::I64, IntKind::I64],
        Method::FdClose => seq![IntKind::U32],
        Method::FdDatasync => seq![IntKind::U32],
        Method::FdFdstatGet => seq![IntKind::U32, IntKind::U32],
        Method::FdFdstatSetFlags => seq![IntKind::I32, IntKind::I32],
        Method::FdFdstatSetRights => seq![IntKind::I32, IntKind::I64, IntKind::I64],
        Method::FdFilestatGet => seq![IntKind::U32, IntKind::U32],
        Method::FdFilestatSetSize => seq![IntKind::U32, IntKind::U64],
        Method::FdFilestatSetTimes => seq![IntKind::I32, IntKind::I64, IntKind::I64, IntKind::I32],
        Method::FdPread => seq![IntKind::I32, IntKind::I32, IntKind::I32, IntKind::I64, IntKind::I32],
        Method::FdPrestatGet => seq![IntKind::U32, IntKind::U32],
        Method::FdPrestatDirName => seq![IntKind::U32, IntKind::U32, IntKind::U32],
        Method::FdPwrite => seq![IntKind::U32, IntKind::U32, IntKind::U32, IntKind::U64, IntKind::U32],
        Method::FdRead => seq![IntKind::I32, IntKind::I32, IntKind::I32, IntKind::I32],
        Method::FdReaddir => seq![IntKind::U32, IntKind::U32, IntKind::U32, IntKind::U64, IntKind::U32],
        Method::FdRenumber => seq![IntKind::U32, IntKind::U32],
        Method::FdSeek => seq![IntKind::U32, IntKind::I64, IntKind::U8, IntKind::U32],
        Method::FdSync => seq![IntKind::U32],
        Method::FdTell => seq![IntKind::U32, IntKind::U64],
        Method::FdWrite => seq![IntKind::U32, IntKind::U32, IntKind::U32, IntKind::U32],
        Method::PathCreateDirectory => seq![IntKind::I32, IntKind::I32, IntKind::I32],
        Method::PathFilestatGet => seq![IntKind::I32, IntKind::I32, IntKind::I32, IntKind::I32, IntKind::I32],
        Method::PathFilestatSetTimes => seq![IntKind::I32, IntKind::I32, IntKind::I32, IntKind::I32, IntKind::I64, IntKind::I64, IntKind::I32],
        Method::PathLink => seq![IntKind::I32, IntKind::I32, IntKind::I32, IntKind::I32, IntKind::I32, IntKind::I32, IntKind::I32],
        Method::PathOpen => seq![IntKind::I32, IntKind::I32, IntKind::I32, IntKind::I32, IntKind::I32, IntKind::I64, IntKind::I64, IntKind::I32, IntKind::I32],
        Method::PathReadlink => seq![IntKind::I32, IntKind::I32, IntKind::I32, IntKind::I32, IntKind::I32, IntKind::I32],
        Method::PathRemoveDirectory => seq![IntKind::I32, IntKind::I32, IntKind::I32],
        Method::PathRename => seq![IntKind::I32, IntKind::I32, IntKind::I32, IntKind::I32, IntKind::I32, IntKind::I32],
        Method::PathSymlink => seq![IntKind::I32, IntKind::I32, IntKind::I32, IntKind::I32, IntKind::I32],
        Method::PathUnlinkFile => seq![IntKind::I32, IntKind::I32, IntKind::I32],
        Method::PollOneoff => seq![IntKind::I32, IntKind::I32, IntKind::I32, IntKind::I32],
        Method::ProcExit => seq![IntKind::I32],
        Method::ProcRaise => seq![IntKind::I32],
        Method::SchedYield => seq![],
        Method::RandomGet => seq![IntKind::I32, IntKind::I32],
        Method::SockAccept => seq![IntKind::I32, IntKind::I32, IntKind::I32],
        Method::SockRecv => seq![IntKind::I32, IntKind::I32, IntKind::I32, IntKind::I32, IntKind::I32, IntKind::I32],
        Method::SockSend => seq![IntKind::I32, IntKind::I32, IntKind::I32, IntKind::I32, IntKind::I32],
        Method::SockShutdown => seq![IntKind::I32, IntKind::I32],
    }
}

/// Whether the call reads its request body at all (`sched_yield` ignores it).
pub open spec fn reads_request(m: Method) -> bool {
    m != Method::SchedYield
}

/// Whether the protocol handler dispatches requests to `m`.
pub open spec fn is_routed(m: Method) -> bool {
    match m {
        Method::FdAdvise => true,
        Method::FdAllocate => true,
        Method::FdClose => true,
        Method::FdDatasync => true,
        Method::FdFdstatGet => true,
        Method::FdFdstatSetFlags => true,
        Method::FdFdstatSetRights => true,
        Method::FdFilestatGet => true,
        Method::FdFilestatSetSize => true,
        Method::FdFilestatSetTimes => true,
        Method::FdPread => true,
        Method::FdPrestatGet => true,
        Method::FdPrestatDirName => true,
        Method::FdPwrite => true,
        Method::FdRead => true,
        Method::FdReaddir => true,
        Method::FdRenumber => true,
        Method::FdSeek => true,
        Method::FdSync => true,
        Method::FdTell => true,
        Method::FdWrite => true,
        Method::PathCreateDirectory => true,
        Method::PathFilestatGet => true,
        Method::PathFilestatSetTimes => true,
        Method::PathLink => true,
        Method::PathOpen => true,
        Method::PathReadlink => true,
        Method::PathRemoveDirectory => true,
        Method::PathRename => true,
        Method::PathSymlink => true,
        Method::PathUnlinkFile => true,
        _ => false,
    }
}

/// The path segment, a slash and the call's name, under which `m` is requested.
pub open spec fn route_name(m: Method) -> Seq<u8> {
    match m {
        Method::ArgsGet => seq![47u8, 97, 114, 103, 115, 95, 103, 101, 116],
        Method::ArgsSizesGet => seq![47u8, 97, 114, 103, 115, 95, 115, 105, 122, 101, 115, 95, 103, 101, 116],
        Method::EnvironGet => seq![47u8, 101, 110, 118, 105, 114, 111, 110, 95, 103, 101, 116],
        Method::EnvironSizesGet => seq![47u8, 101, 110, 118, 105, 114, 111, 110, 95, 115, 105, 122, 101, 115, 95, 103, 101, 116],
        Method::ClockResGet => seq![47u8, 99, 108, 111, 99, 107, 95, 114, 101, 115, 95, 103, 101, 116],
        Method::ClockTimeGet => seq![47u8, 99, 108, 111, 99, 107, 95, 116, 105, 109, 101, 95, 103, 101, 116],
        Method::FdAdvise => seq![47u8, 102, 100, 95, 97, 100, 118, 105, 115, 101],
        Method::FdAllocate => seq![47u8, 102, 100, 95, 97, 108, 108, 111, 99, 97, 116, 101],
        Method::FdClose => seq![47u8, 102, 100, 95, 99, 108, 111, 115, 101],
        Method::FdDatasync => seq![47u8, 102, 100, 95, 100, 97, 116, 97, 115, 121, 110, 99],
        Method::FdFdstatGet => seq![47u8, 102, 100, 95, 102, 100, 115, 116, 97, 116, 95, 103, 101, 116],
        Method::FdFdstatSetFlags => seq![47u8, 102, 100, 95, 102, 100, 115, 116, 97, 116, 95, 115, 101, 116, 95, 102, 108, 97, 103, 115],
        Method::FdFdstatSetRights => seq![47u8, 102, 100, 95, 102, 100, 115, 116, 97, 116, 95, 115, 101, 116, 95, 114, 105, 103, 104, 116, 115],
        Method::FdFilestatGet => seq![47u8, 102, 100, 95, 102, 105, 108, 101, 115, 116, 97, 116, 95, 103, 101, 116],
        Method::FdFilestatSetSize => seq![47u8, 102, 100, 95, 102, 105, 108, 101, 115, 116, 97, 116, 95, 115, 101, 116, 95, 115, 105, 122, 101],
        Method::FdFilestatSetTimes => seq![47u8, 102, 100, 95, 102, 105, 108, 101, 115, 116, 97, 116, 95, 115, 101, 116, 95, 116, 105, 109, 101, 115],
        Method::FdPread => seq![47u8, 102, 100, 95, 112, 114, 101, 97, 100],
        Method::FdPrestatGet => seq![47u8, 102, 100, 95, 112, 114, 101, 115, 116, 97, 116, 95, 103, 101, 116],
        Method::FdPrestatDirName => seq![47u8, 102, 100, 95, 112, 114, 101, 115, 116, 97, 116, 95, 100, 105, 114, 95, 110, 97, 109, 101],
        Method::FdPwrite => seq![47u8, 102, 100, 95, 112, 119, 114, 105, 116, 101],
        Method::FdRead => seq![47u8, 102, 100, 95, 114, 101, 97, 100],
        Method::FdReaddir => seq![47u8, 102, 100, 95, 114, 101, 97, 100, 100, 105, 114],
        Method::FdRenumber => seq![47u8, 102, 100, 95, 114, 101, 110, 117, 109, 98, 101, 114],
        Method::FdSeek => seq![47u8, 102, 100, 95, 115, 101, 101, 107],
        Method::FdSync => seq![47u8, 102, 100, 95, 115, 121, 110, 99],
        Method::FdTell => seq![47u8, 102, 100, 95, 116, 101, 108, 108],
        Method::FdWrite => seq![47u8, 102, 100, 95, 119, 114, 105, 116, 101],
        Method::PathCreateDirectory => seq![47u8, 112, 97, 116, 104, 95, 99, 114, 101, 97, 116, 101, 95, 100, 105, 114, 101, 99, 116, 111, 114, 121],
        Method::PathFilestatGet => seq![47u8, 112, 97, 116, 104, 95, 102, 105, 108, 101, 115, 116, 97, 116, 95, 103, 101, 116],
        Method::PathFilestatSetTimes => seq![47u8, 112, 97, 116, 104, 95, 102, 105, 108, 101, 115, 116, 97, 116, 95, 115, 101, 116, 95, 116, 105, 109, 101, 115],
        Method::PathLink => seq![47u8, 112, 97, 116, 104, 95, 108, 105, 110, 107],
        Method::PathOpen => seq![47u8, 112, 97, 116, 104, 95, 111, 112, 101, 110],
        Method::PathReadlink => seq![47u8, 112, 97, 116, 104, 95, 114, 101, 97, 100, 108, 105, 110, 107],
        Method::PathRemoveDirectory => seq![47u8, 112, 97, 116, 104, 95, 114, 101, 109, 111, 118, 101, 95, 100, 105, 114, 101, 99, 116, 111, 114, 121],
        Method::PathRename => seq![47u8, 112, 97, 116, 104, 95, 114, 101, 110, 97, 109, 101],
        Method::PathSymlink => seq![47u8, 112, 97, 116, 104, 95, 115, 121, 109, 108, 105, 110, 107],
        Method::PathUnlinkFile => seq![47u8, 112, 97, 116, 104, 95, 117, 110, 108, 105, 110, 107, 95, 102, 105, 108, 101],
        Method::PollOneoff => seq![47u8, 112, 111, 108, 108, 95, 111, 110, 101, 111, 102, 102],
        Method::ProcExit => seq![47u8, 112, 114, 111, 99, 95, 101, 120, 105, 116],
        Method::ProcRaise => seq![47u8, 112, 114, 111, 99, 95, 114, 97, 105, 115, 101],
        Method::SchedYield => seq![47u8, 115, 99, 104, 101, 100, 95, 121, 105, 101, 108, 100],
        Method::RandomGet => seq![47u8, 114, 97, 110, 100, 111, 109, 95, 103, 101, 116],
        Method::SockAccept => seq![47u8, 115, 111, 99, 107, 95, 97, 99, 99, 101, 112, 116],
        Method::SockRecv => seq![47u8, 115, 111, 99, 107, 95, 114, 101, 99, 118],
        Method::SockSend => seq![47u8, 115, 111, 99, 107, 95, 115, 101, 110, 100],
        Method::SockShutdown => seq![47u8, 115, 111, 99, 107, 95, 115, 104, 117, 116, 100, 111, 119, 110],
    }
}

/// The routed method whose path segment is `name`, if any (segments grouped by length).
#[verifier::opaque]
pub open spec fn routed_method(name: Seq<u8>) -> Option<Method> {
    if name.len() == 8 {
        if name == route_name(Method::FdRead) {
            Some(Method::FdRead)
        } else if name == route_name(Method::FdSeek) {
            Some(Method::FdSeek)
        } else if name == route_name(Method::FdSync) {
            Some(Method::FdSync)
        } else if name == route_name(Method::FdTell) {
            Some(Method::FdTell)
        } else {
            None
        }
    } else if name.len() == 9 {
        if name == route_name(Method::FdClose) {
            Some(Method::FdClose)
        } else if name == route_name(Method::FdPread) {
            Some(Method::FdPread)
        } else if name == route_name(Method::FdWrite) {
            Some(Method::FdWrite)
        } else {
            None
        }
    } else if name.len() == 10 {
        if name == route_name(Method::FdAdvise) {
            Some(Method::FdAdvise)
        } else if name == route_name(Method::FdPwrite) {
            Some(Method::FdPwrite)
        } else if name == route_name(Method::PathLink) {
            Some(Method::PathLink)
        } else if name == route_name(Method::PathOpen) {
            Some(Method::PathOpen)
        } else {
            None
        }
    } else if name.len() == 11 {
        if name == route_name(Method::FdReaddir) {
            Some(Method::FdReaddir)
        } else {
            None
        }
    } else if name.len() == 12 {
        if name == route_name(Method::FdAllocate) {
            Some(Method::FdAllocate)
        } else if name == route_name(Method::FdDatasync) {
            Some(Method::FdDatasync)
        } else if name == route_name(Method::FdRenumber) {
            Some(Method::FdRenumber)
        } else if name == route_name(Method::PathRename) {
            Some(Method::PathRename)
        } else {
            None
        }
    } else if name.len() == 13 {
        if name == route_name(Method::PathSymlink) {
            Some(Method::PathSymlink)
        } else {
            None
        }
    } else if name.len() == 14 {
        if name == route_name(Method::FdFdstatGet) {
            Some(Method::FdFdstatGet)
        } else if name == route_name(Method::PathReadlink) {
            Some(Method::PathReadlink)
        } else {
            None
        }
    } else if name.len() == 15 {
        if name == route_name(Method::FdPrestatGet) {
            Some(Method::FdPrestatGet)
        } else {
            None
        }
    } else if name.len() == 16 {
        if name == route_name(Method::FdFilestatGet) {
            Some(Method::FdFilestatGet)
        } else {
            None
        }
    } else if name.len() == 17 {
        if name == route_name(Method::PathUnlinkFile) {
            Some(Method::PathUnlinkFile)
        } else {
            None
        }
    } else if name.len() == 18 {
        if name == route_name(Method::PathFilestatGet) {
            Some(Method::PathFilestatGet)
        } else {
            None
        }
    } else if name.len() == 20 {
        if name == route_name(Method::FdFdstatSetFlags) {
            Some(Method::FdFdstatSetFlags)
        } else if name == route_name(Method::FdPrestatDirName) {
            Some(Method::FdPrestatDirName)
        } else {
            None
        }
    } else if name.len() == 21 {
        if name == route_name(Method::FdFdstatSetRights) {
            Some(Method::FdFdstatSetRights)
        } else if name == route_name(Method::FdFilestatSetSize) {
            Some(Method::FdFilestatSetSize)
        } else {
            None
        }
    } else if name.len() == 22 {
        if name == route_name(Method::FdFilestatSetTimes) {
            Some(Method::FdFilestatSetTimes)
        } else if name == route_name(Method::PathCreateDirectory) {
            Some(Method::PathCreateDirectory)
        } else if name == route_name(Method::PathRemoveDirectory) {
            Some(Method::PathRemoveDirectory)
        } else {
            None
        }
    } else if name.len() == 24 {
        if name == route_name(Method::PathFilestatSetTimes) {
            Some(Method::PathFilestatSetTimes)
        } else {
            None
        }
    } else {
        None
    }
}

/// Compares `s[start..end]` with `lit`.
pub fn range_equals(s: &[u8], start: usize, end: usize, lit: &[u8]) -> (r: bool)
    requires
        start <= end <= s@.len(),
    ensures
        r == (s@.subrange(start as int, end as int) == lit@),
{
    if end - start != lit.len() {
        return false;
    }
    let mut i: usize = 0;
    while i < lit.len()
        invariant
            start <= end <= s@.len(),
            end - start == lit@.len(),
            0 <= i <= lit@.len(),
            forall|j: int| 0 <= j < i ==> s@[start + j] == lit@[j],
        decreases lit@.len() - i,
    {
        if s[start + i] != lit[i] {
            assert(s@.subrange(start as int, end as int)[i as int] != lit@[i as int]);
            return false;
        }
        i = i + 1;
    }
    assert(s@.subrange(start as int, end as int) =~= lit@);
    true
}

impl Method {
    /// The argument kinds of this call's request.
    pub fn arg_kinds(&self) -> (r: Vec<IntKind>)
        ensures
            r@ == signature(*self),
    {
        let v: Vec<IntKind> = match self {
            Method::ArgsGet => vec![IntKind::I32, IntKind::I32],
            Method::ArgsSizesGet => vec![IntKind::I32, IntKind::I32],
            Method::EnvironGet => vec![IntKind::I32, IntKind::I32],
            Method::EnvironSizesGet => vec![IntKind::I32, IntKind::I32],
            Method::ClockResGet => vec![IntKind::I32, IntKind::I32],
            Method::ClockTimeGet => vec![IntKind::I32, IntKind::I64, IntKind::I32],
            Method::FdAdvise => vec![IntKind::I32, IntKind::I64, IntKind::I64, IntKind::I32],
            Method::FdAllocate => vec![IntKind::I32, IntKind::I64, IntKind::I64],
            Method::FdClose => vec![IntKind::U32],
            Method::FdDatasync => vec![IntKind::U32],
            Method::FdFdstatGet => vec![IntKind::U32, IntKind::U32],
            Method::FdFdstatSetFlags => vec![IntKind::I32, IntKind::I32],
            Method::FdFdstatSetRights => vec![IntKind::I32, IntKind::I64, IntKind::I64],
            Method::FdFilestatGet => vec![IntKind::U32, IntKind::U32],
            Method::FdFilestatSetSize => vec![IntKind::U32, IntKind::U64],
            Method::FdFilestatSetTimes => vec![IntKind::I32, IntKind::I64, IntKind::I64, IntKind::I32],
            Method::FdPread => vec![IntKind::I32, IntKind::I32, IntKind::I32, IntKind::I64, IntKind::I32],
            Method::FdPrestatGet => vec![IntKind::U32, IntKind::U32],
            Method::FdPrestatDirName => vec![IntKind::U32, IntKind::U32, IntKind::U32],
            Method::FdPwrite => vec![IntKind::U32, IntKind::U32, IntKind::U32, IntKind::U64, IntKind::U32],
            Method::FdRead => vec![IntKind::I32, IntKind::I32, IntKind::I32, IntKind::I32],
            Method::FdReaddir => vec![IntKind::U32, IntKind::U32, IntKind::U32, IntKind::U64, IntKind::U32],
            Method::FdRenumber => vec![IntKind::U32, IntKind::U32],
            Method::FdSeek => vec![IntKind::U32, IntKind::I64, IntKind::U8, IntKind::U32],
            Method::FdSync => vec![IntKind::U32],
            Method::FdTell => vec![IntKind::U32, IntKind::U64],
            Method::FdWrite => vec![IntKind::U32, IntKind::U32, IntKind::U32, IntKind::U32],
            Method::PathCreateDirectory => vec![IntKind::I32, IntKind::I32, IntKind::I32],
            Method::PathFilestatGet => vec![IntKind::I32, IntKind::I32, IntKind::I32, IntKind::I32, IntKind::I32],
            Method::PathFilestatSetTimes => vec![IntKind::I32, IntKind::I32, IntKind::I32, IntKind::I32, IntKind::I64, IntKind::I64, IntKind::I32],
            Method::PathLink => vec![IntKind::I32, IntKind::I32, IntKind::I32, IntKind::I32, IntKind::I32, IntKind::I32, IntKind::I32],
            Method::PathOpen => vec![IntKind::I32, IntKind::I32, IntKind::I32, IntKind::I32, IntKind::I32, IntKind::I64, IntKind::I64, IntKind::I32, IntKind::I32],
            Method::PathReadlink => vec![IntKind::I32, IntKind::I32, IntKind::I32, IntKind::I32, IntKind::I32, IntKind::I32],
            Method::PathRemoveDirectory => vec![IntKind::I32, IntKind::I32, IntKind::I32],
            Method::PathRename => vec![IntKind::I32, IntKind::I32, IntKind::I32, IntKind::I32, IntKind::I32, IntKind::I32],
            Method::PathSymlink => vec![IntKind::I32, IntKind::I32, IntKind::I32, IntKind::I32, IntKind::I32],
            Method::PathUnlinkFile => vec![IntKind::I32, IntKind::I32, IntKind::I32],
            Method::PollOneoff => vec![IntKind::I32, IntKind::I32, IntKind::I32, IntKind::I32],
            Method::ProcExit => vec![IntKind::I32],
            Method::ProcRaise => vec![IntKind::I32],
            Method::SchedYield => vec![],
            Method::RandomGet => vec![IntKind::I32, IntKind::I32],
            Method::SockAccept => vec![IntKind::I32, IntKind::I32, IntKind::I32],
            Method::SockRecv => vec![IntKind::I32, IntKind::I32, IntKind::I32, IntKind::I32, IntKind::I32, IntKind::I32],
            Method::SockSend => vec![IntKind::I32, IntKind::I32, IntKind::I32, IntKind::I32, IntKind::I32],
            Method::SockShutdown => vec![IntKind::I32, IntKind::I32],
        };
        assert(v@ =~= signature(*self));
        v
    }

    /// Whether this call reads its request body.
    pub fn reads_request(&self) -> (r: bool)
        ensures
            r == reads_request(*self),
    {
        match self {
            Method::SchedYield => false,
            _ => true,
        }
    }

    /// Whether the protocol handler dispatches requests to this call.
    pub fn is_routed(&self) -> (r: bool)
        ensures
            r == is_routed(*self),
    {
        match self {
            Method::FdAdvise => true,
            Method::FdAllocate => true,
            Method::FdClose => true,
            Method::FdDatasync => true,
            Method::FdFdstatGet => true,
            Method::FdFdstatSetFlags => true,
            Method::FdFdstatSetRights => true,
            Method::FdFilestatGet => true,
            Method::FdFilestatSetSize => true,
            Method::FdFilestatSetTimes => true,
            Method::FdPread => true,
            Method::FdPrestatGet => true,
            Method::FdPrestatDirName => true,
            Method::FdPwrite => true,
            Method::FdRead => true,
            Method::FdReaddir => true,
            Method::FdRenumber => true,
            Method::FdSeek => true,
            Method::FdSync => true,
            Method::FdTell => true,
            Method::FdWrite => true,
            Method::PathCreateDirectory => true,
            Method::PathFilestatGet => true,
            Method::PathFilestatSetTimes => true,
            Method::PathLink => true,
            Method::PathOpen => true,
            Method::PathReadlink => true,
            Method::PathRemoveDirectory => true,
            Method::PathRename => true,
            Method::PathSymlink => true,
            Method::PathUnlinkFile => true,
            _ => false,
        }
    }
}

/// The routed method named by `s[start..end]`, if any.
pub fn method_for_segment(s: &[u8], start: usize, end: usize) -> (r: Option<Method>)
    requires
        start <= end <= s@.len(),
    ensures
        r == routed_method(s@.subrange(start as int, end as int)),
{
    let ghost name = s@.subrange(start as int, end as int);
    reveal(routed_method);
    let len: usize = end - start;
    if len == 8 {
        let lit: Vec<u8> = vec![47u8, 102, 100, 95, 114, 101, 97, 100];
        assert(lit@ =~= route_name(Method::FdRead));
        if range_equals(s, start, end, lit.as_slice()) {
            return Some(Method::FdRead);
        }
        let lit: Vec<u8> = vec![47u8, 102, 100, 95, 115, 101, 101, 107];
        assert(lit@ =~= route_name(Method::FdSeek));
        if range_equals(s, start, end, lit.as_slice()) {
            return Some(Method::FdSeek);
        }
        let lit: Vec<u8> = vec![47u8, 102, 100, 95, 115, 121, 110, 99];
        assert(lit@ =~= route_name(Method::FdSync));
        if range_equals(s, start, end, lit.as_slice()) {
            return Some(Method::FdSync);
        }
        let lit: Vec<u8> = vec![47u8, 102, 100, 95, 116, 101, 108, 108];
        assert(lit@ =~= route_name(Method::FdTell));
        if range_equals(s, start, end, lit.as_slice()) {
            return Some(Method::FdTell);
        }
        return None;
    }
    if len == 9 {
        let lit: Vec<u8> = vec![47u8, 102, 100, 95, 99, 108, 111, 115, 101];
        assert(lit@ =~= route_name(Method::FdClose));
        if range_equals(s, start, end, lit.as_slice()) {
            return Some(Method::FdClose);
        }
        let lit: Vec<u8> = vec![47u8, 102, 100, 95, 112, 114, 101, 97, 100];
        assert(lit@ =~= route_name(Method::FdPread));
        if range_equals(s, start, end, lit.as_slice()) {
            return Some(Method::FdPread);
        }
        let lit: Vec<u8> = vec![47u8, 102, 100, 95, 119, 114, 105, 116, 101];
        assert(lit@ =~= route_name(Method::FdWrite));
        if range_equals(s, start, end, lit.as_slice()) {
            return Some(Method::FdWrite);
        }
        return None;
    }
    if len == 10 {
        let lit: Vec<u8> = vec![47u8, 102, 100, 95, 97, 100, 118, 105, 115, 101];
        assert(lit@ =~= route_name(Method::FdAdvise));
        if range_equals(s, start, end, lit.as_slice()) {
            return Some(Method::FdAdvise);
        }
        let lit: Vec<u8> = vec![47u8, 102, 100, 95, 112, 119, 114, 105, 116, 101];
        assert(lit@ =~= route_name(Method::FdPwrite));
        if range_equals(s, start, end, lit.as_slice()) {
            return Some(Method::FdPwrite);
        }
        let lit: Vec<u8> = vec![47u8, 112, 97, 116, 104, 95, 108, 105, 110, 107];
        assert(lit@ =~= route_name(Method::PathLink));
        if range_equals(s, start, end, lit.as_slice()) {
            return Some(Method::PathLink);
        }
        let lit: Vec<u8> = vec![47u8, 112, 97, 116, 104, 95, 111, 112, 101, 110];
        assert(lit@ =~= route_name(Method::PathOpen));
        if range_equals(s, start, end, lit.as_slice()) {
            return Some(Method::PathOpen);
        }
        return None;
    }
    if len == 11 {
        let lit: Vec<u8> = vec![47u8, 102, 100, 95, 114, 101, 97, 100, 100, 105, 114];
        assert(lit@ =~= route_name(Method::FdReaddir));
        if range_equals(s, start, end, lit.as_slice()) {
            return Some(Method::FdReaddir);
        }
        return None;
    }
    if len == 12 {
        let lit: Vec<u8> = vec![47u8, 102, 100, 95, 97, 108, 108, 111, 99, 97, 116, 101];
        assert(lit@ =~= route_name(Method::FdAllocate));
        if range_equals(s, start, end, lit.as_slice()) {
            return Some(Method::FdAllocate);
        }
        let lit: Vec<u8> = vec![47u8, 102, 100, 95, 100, 97, 116, 97, 115, 121, 110, 99];
        assert(lit@ =~= route_name(Method::FdDatasync));
        if range_equals(s, start, end, lit.as_slice()) {
            return Some(Method::FdDatasync);
        }
        let lit: Vec<u8> = vec![47u8, 102, 100, 95, 114, 101, 110, 117, 109, 98, 101, 114];
        assert(lit@ =~= route_name(Method::FdRenumber));
        if range_equals(s, start, end, lit.as_slice()) {
            return Some(Method::FdRenumber);
        }
        let lit: Vec<u8> = vec![47u8, 112, 97, 116, 104, 95, 114, 101, 110, 97, 109, 101];
        assert(lit@ =~= route_name(Method::PathRename));
        if range_equals(s, start, end, lit.as_slice()) {
            return Some(Method::PathRename);
        }
        return None;
    }
    if len == 13 {
        let lit: Vec<u8> = vec![47u8, 112, 97, 116, 104, 95, 115, 121, 109, 108, 105, 110, 107];
        assert(lit@ =~= route_name(Method::PathSymlink));
        if range_equals(s, start, end, lit.as_slice()) {
            return Some(Method::PathSymlink);
        }
        return None;
    }
    if len == 14 {
        let lit: Vec<u8> = vec![47u8, 102, 100, 95, 102, 100, 115, 116, 97, 116, 95, 103, 101, 116];
        assert(lit@ =~= route_name(Method::FdFdstatGet));
        if range_equals(s, start, end, lit.as_slice()) {
            return Some(Method::FdFdstatGet);
        }
        let lit: Vec<u8> = vec![47u8, 112, 97, 116, 104, 95, 114, 101, 97, 100, 108, 105, 110, 107];
        assert(lit@ =~= route_name(Method::PathReadlink));
        if range_equals(s, start, end, lit.as_slice()) {
            return Some(Method::PathReadlink);
        }
        return None;
    }
    if len == 15 {
        let lit: Vec<u8> = vec![47u8, 102, 100, 95, 112, 114, 101, 115, 116, 97, 116, 95, 103, 101, 116];
        assert(lit@ =~= route_name(Method::FdPrestatGet));
        if range_equals(s, start, end, lit.as_slice()) {
            return Some(Method::FdPrestatGet);
        }
        return None;
    }
    if len == 16 {
        let lit: Vec<u8> = vec![47u8, 102, 100, 95, 102, 105, 108, 101, 115, 116, 97, 116, 95, 103, 101, 116];
        assert(lit@ =~= route_name(Method::FdFilestatGet));
        if range_equals(s, start, end, lit.as_slice()) {
            return Some(Method::FdFilestatGet);
        }
        return None;
    }
    if len == 17 {
        let lit: Vec<u8> = vec![47u8, 112, 97, 116, 104, 95, 117, 110, 108, 105, 110, 107, 95, 102, 105, 108, 101];
        assert(lit@ =~= route_name(Method::PathUnlinkFile));
        if range_equals(s, start, end, lit.as_slice()) {
            return Some(Method::PathUnlinkFile);
        }
        return None;
    }
    if len == 18 {
        let lit: Vec<u8> = vec![47u8, 112, 97, 116, 104, 95, 102, 105, 108, 101, 115, 116, 97, 116, 95, 103, 101, 116];
        assert(lit@ =~= route_name(Method::PathFilestatGet));
        if range_equals(s, start, end, lit.as_slice()) {
            return Some(Method::PathFilestatGet);
        }
        return None;
    }
    if len == 20 {
        let lit: Vec<u8> = vec![47u8, 102, 100, 95, 102, 100, 115, 116, 97, 116, 95, 115, 101, 116, 95, 102, 108, 97, 103, 115];
        assert(lit@ =~= route_name(Method::FdFdstatSetFlags));
        if range_equals(s, start, end, lit.as_slice()) {
            return Some(Method::FdFdstatSetFlags);
        }
        let lit: Vec<u8> = vec![47u8, 102, 100, 95, 112, 114, 101, 115, 116, 97, 116, 95, 100, 105, 114, 95, 110, 97, 109, 101];
        assert(lit@ =~= route_name(Method::FdPrestatDirName));
        if range_equals(s, start, end, lit.as_slice()) {
            return Some(Method::FdPrestatDirName);
        }
        return None;
    }
    if len == 21 {
        let lit: Vec<u8> = vec![47u8, 102, 100, 95, 102, 100, 115, 116, 97, 116, 95, 115, 101, 116, 95, 114, 105, 103, 104, 116, 115];
        assert(lit@ =~= route_name(Method::FdFdstatSetRights));
        if range_equals(s, start, end, lit.as_slice()) {
            return Some(Method::FdFdstatSetRights);
        }
        let lit: Vec<u8> = vec![47u8, 102, 100, 95, 102, 105, 108, 101, 115, 116, 97, 116, 95, 115, 101, 116, 95, 115, 105, 122, 101];
        assert(lit@ =~= route_name(Method::FdFilestatSetSize));
        if range_equals(s, start, end, lit.as_slice()) {
            return Some(Method::FdFilestatSetSize);
        }
        return None;
    }
    if len == 22 {
        let lit: Vec<u8> = vec![47u8, 102, 100, 95, 102, 105, 108, 101, 115, 116, 97, 116, 95, 115, 101, 116, 95, 116, 105, 109, 101, 115];
        assert(lit@ =~= route_name(Method::FdFilestatSetTimes));
        if range_equals(s, start, end, lit.as_slice()) {
            return Some(Method::FdFilestatSetTimes);
        }
        let lit: Vec<u8> = vec![47u8, 112, 97, 116, 104, 95, 99, 114, 101, 97, 116, 101, 95, 100, 105, 114, 101, 99, 116, 111, 114, 121];
        assert(lit@ =~= route_name(Method::PathCreateDirectory));
        if range_equals(s, start, end, lit.as_slice()) {
            return Some(Method::PathCreateDirectory);
        }
        let lit: Vec<u8> = vec![47u8, 112, 97, 116, 104, 95, 114, 101, 109, 111, 118, 101, 95, 100, 105, 114, 101, 99, 116, 111, 114, 121];
        assert(lit@ =~= route_name(Method::PathRemoveDirectory));
        if range_equals(s, start, end, lit.as_slice()) {
            return Some(Method::PathRemoveDirectory);
        }
        return None;
    }
    if len == 24 {
        let lit: Vec<u8> = vec![47u8, 112, 97, 116, 104, 95, 102, 105, 108, 101, 115, 116, 97, 116, 95, 115, 101, 116, 95, 116, 105, 109, 101, 115];
        assert(lit@ =~= route_name(Method::PathFilestatSetTimes));
        if range_equals(s, start, end, lit.as_slice()) {
            return Some(Method::PathFilestatSetTimes);
        }
        return None;
    }
    None
}

/// Each call's path segment is a slash, the call's name, and no line feed;
/// each routed call is found again from its own segment.
pub proof fn lemma_route_name(m: Method)
    ensures
        route_name(m).len() >= 2,
        route_name(m)[0] == 47,
        forall|i: int| 0 <= i < route_name(m).len() ==> #[trigger] route_name(m)[i] != 10,
        is_routed(m) ==> routed_method(route_name(m)) == Some(m),
{
    reveal(routed_method);
    match m {
        Method::FdDatasync => {
            assert(route_name(Method::FdDatasync)[4] != route_name(Method::FdAllocate)[4]);
        },
        Method::FdFilestatSetSize => {
            assert(route_name(Method::FdFilestatSetSize)[5] != route_name(Method::FdFdstatSetRights)[5]);
        },
        Method::FdPread => {
            assert(route_name(Method::FdPread)[4] != route_name(Method::FdClose)[4]);
        },
        Method::FdPrestatDirName => {
            assert(route_name(Method::FdPrestatDirName)[4] != route_name(Method::FdFdstatSetFlags)[4]);
        },
        Method::FdPwrite => {
            assert(route_name(Method::FdPwrite)[4] != route_name(Method::FdAdvise)[4]);
        },
        Method::FdRenumber => {
            assert(route_name(Method::FdRenumber)[4] != route_name(Method::FdAllocate)[4]);
            assert(route_name(Method::FdRenumber)[4] != route_name(Method::FdDatasync)[4]);
        },
        Method::FdSeek => {
            assert(route_name(Method::FdSeek)[4] != route_name(Method::FdRead)[4]);
        },
        Method::FdSync => {
            assert(route_name(Method::FdSync)[4] != route_name(Method::FdRead)[4]);
            assert(route_name(Method::FdSync)[5] != route_name(Method::FdSeek)[5]);
        },
        Method::FdTell => {
            assert(route_name(Method::FdTell)[4] != route_name(Method::FdRead)[4]);
            assert(route_name(Method::FdTell)[4] != route_name(Method::FdSeek)[4]);
            assert(route_name(Method::FdTell)[4] != route_name(Method::FdSync)[4]);
        },
        Method::FdWrite => {
            assert(route_name(Method::FdWrite)[4] != route_name(Method::FdClose)[4]);
            assert(route_name(Method::FdWrite)[4] != route_name(Method::FdPread)[4]);
        },
        Method::PathCreateDirectory => {
            assert(route_name(Method::PathCreateDirectory)[1] != route_name(Method::FdFilestatSetTimes)[1]);
        },
        Method::PathLink => {
            assert(route_name(Method::PathLink)[1] != route_name(Method::FdAdvise)[1]);
            assert(route_name(Method::PathLink)[1] != route_name(Method::FdPwrite)[1]);
        },
        Method::PathOpen => {
            assert(route_name(Method::PathOpen)[1] != route_name(Method::FdAdvise)[1]);
            assert(route_name(Method::PathOpen)[1] != route_name(Method::FdPwrite)[1]);
            assert(route_name(Method::PathOpen)[6] != route_name(Method::PathLink)[6]);
        },
        Method::PathReadlink => {
            assert(route_name(Method::PathReadlink)[1] != route_name(Method::FdFdstatGet)[1]);
        },
        Method::PathRemoveDirectory => {
            assert(route_name(Method::PathRemoveDirectory)[1] != route_name(Method::FdFilestatSetTimes)[1]);
            assert(route_name(Method::PathRemoveDirectory)[6] != route_name(Method::PathCreateDirectory)[6]);
        },
        Method::PathRename => {
            assert(route_name(Method::PathRename)[1] != route_name(Method::FdAllocate)[1]);
            assert(route_name(Method::PathRename)[1] != route_name(Method::FdDatasync)[1]);
            assert(route_name(Method::PathRename)[1] != route_name(Method::FdRenumber)[1]);
        },
        _ => {},
    }
}

/// The path segment prefix of the descriptor calls, `/fd_`.
pub open spec fn fd_prefix() -> Seq<u8> {
    seq![47u8, 102, 100, 95]
}

/// The path segment prefix of the path calls, `/path_`.
pub open spec fn path_prefix() -> Seq<u8> {
    seq![47u8, 112, 97, 116, 104, 95]
}

/// `s` begins with `p`.
pub open spec fn has_prefix(s: Seq<u8>, p: Seq<u8>) -> bool {
    p.len() <= s.len() && s.subrange(0, p.len() as int) == p
}

/// The handler serves exactly the descriptor calls (`fd_*`) and the path calls (`path_*`).
pub proof fn law_routed_calls(m: Method)
    ensures
        is_routed(m) <==> (has_prefix(route_name(m), fd_prefix()) || has_prefix(route_name(m), path_prefix())),
{
    let t = route_name(m);
    match m {
        Method::ArgsGet => {
            assert(t.subrange(0, 4)[1] != fd_prefix()[1]);
            assert(t.subrange(0, 6)[1] != path_prefix()[1]);
        },
        Method::ArgsSizesGet => {
            assert(t.subrange(0, 4)[1] != fd_prefix()[1]);
            assert(t.subrange(0, 6)[1] != path_prefix()[1]);
        },
        Method::EnvironGet => {
            assert(t.subrange(0, 4)[1] != fd_prefix()[1]);
            assert(t.subrange(0, 6)[1] != path_prefix()[1]);
        },
        Method::EnvironSizesGet => {
            assert(t.subrange(0, 4)[1] != fd_prefix()[1]);
            assert(t.subrange(0, 6)[1] != path_prefix()[1]);
        },
        Method::ClockResGet => {
            assert(t.subrange(0, 4)[1] != fd_prefix()[1]);
            assert(t.subrange(0, 6)[1] != path_prefix()[1]);
        },
        Method::ClockTimeGet => {
            assert(t.subrange(0, 4)[1] != fd_prefix()[1]);
            assert(t.subrange(0, 6)[1] != path_prefix()[1]);
        },
        Method::FdAdvise => {
            assert(t.subrange(0, 4) =~= fd_prefix());
        },
        Method::FdAllocate => {
            assert(t.subrange(0, 4) =~= fd_prefix());
        },
        Method::FdClose => {
            assert(t.subrange(0, 4) =~= fd_prefix());
        },
        Method::FdDatasync => {
            assert(t.subrange(0, 4) =~= fd_prefix());
        },
        Method::FdFdstatGet => {
            assert(t.subrange(0, 4) =~= fd_prefix());
        },
        Method::FdFdstatSetFlags => {
            assert(t.subrange(0, 4) =~= fd_prefix());
        },
        Method::FdFdstatSetRights => {
            assert(t.subrange(0, 4) =~= fd_prefix());
        },
        Method::FdFilestatGet => {
            assert(t.subrange(0, 4) =~= fd_prefix());
        },
        Method::FdFilestatSetSize => {
            assert(t.subrange(0, 4) =~= fd_prefix());
        },
        Method::FdFilestatSetTimes => {
            assert(t.subrange(0, 4) =~= fd_prefix());
        },
        Method::FdPread => {
            assert(t.subrange(0, 4) =~= fd_prefix());
        },
        Method::FdPrestatGet => {
            assert(t.subrange(0, 4) =~= fd_prefix());
        },
        Method::FdPrestatDirName => {
            assert(t.subrange(0, 4) =~= fd_prefix());
        },
        Method::FdPwrite => {
            assert(t.subrange(0, 4) =~= fd_prefix());
        },
        Method::FdRead => {
            assert(t.subrange(0, 4) =~= fd_prefix());
        },
        Method::FdReaddir => {
            assert(t.subrange(0, 4) =~= fd_prefix());
        },
        Method::FdRenumber => {
            assert(t.subrange(0, 4) =~= fd_prefix());
        },
        Method::FdSeek => {
            assert(t.subrange(0, 4) =~= fd_prefix());
        },
        Method::FdSync => {
            assert(t.subrange(0, 4) =~= fd_prefix());
        },
        Method::FdTell => {
            assert(t.subrange(0, 4) =~= fd_prefix());
        },
        Method::FdWrite => {
            assert(t.subrange(0, 4) =~= fd_prefix());
        },
        Method::PathCreateDirectory => {
            assert(t.subrange(0, 6) =~= path_prefix());
        },
        Method::PathFilestatGet => {
            assert(t.subrange(0, 6) =~= path_prefix());
        },
        Method::PathFilestatSetTimes => {
            assert(t.subrange(0, 6) =~= path_prefix());
        },
        Method::PathLink => {
            assert(t.subrange(0, 6) =~= path_prefix());
        },
        Method::PathOpen => {
            assert(t.subrange(0, 6) =~= path_prefix());
        },
        Method::PathReadlink => {
            assert(t.subrange(0, 6) =~= path_prefix());
        },
        Method::PathRemoveDirectory => {
            assert(t.subrange(0, 6) =~= path_prefix());
        },
        Method::PathRename => {
            assert(t.subrange(0, 6) =~= path_prefix());
        },
        Method::PathSymlink => {
            assert(t.subrange(0, 6) =~= path_prefix());
        },
        Method::PathUnlinkFile => {
            assert(t.subrange(0, 6) =~= path_prefix());
        },
        Method::PollOneoff => {
            assert(t.subrange(0, 4)[1] != fd_prefix()[1]);
            assert(t.subrange(0, 6)[2] != path_prefix()[2]);
        },
        Method::ProcExit => {
            assert(t.subrange(0, 4)[1] != fd_prefix()[1]);
            assert(t.subrange(0, 6)[2] != path_prefix()[2]);
        },
        Method::ProcRaise => {
            assert(t.subrange(0, 4)[1] != fd_prefix()[1]);
            assert(t.subrange(0, 6)[2] != path_prefix()[2]);
        },
        Method::SchedYield => {
            assert(t.subrange(0, 4)[1] != fd_prefix()[1]);
            assert(t.subrange(0, 6)[1] != path_prefix()[1]);
        },
        Method::RandomGet => {
            assert(t.subrange(0, 4)[1] != fd_prefix()[1]);
            assert(t.subrange(0, 6)[1] != path_prefix()[1]);
        },
        Method::SockAccept => {
            assert(t.subrange(0, 4)[1] != fd_prefix()[1]);
            assert(t.subrange(0, 6)[1] != path_prefix()[1]);
        },
        Method::SockRecv => {
            assert(t.subrange(0, 4)[1] != fd_prefix()[1]);
            assert(t.subrange(0, 6)[1] != path_prefix()[1]);
        },
        Method::SockSend => {
            assert(t.subrange(0, 4)[1] != fd_prefix()[1]);
            assert(t.subrange(0, 6)[1] != path_prefix()[1]);
        },
        Method::SockShutdown => {
            assert(t.subrange(0, 4)[1] != fd_prefix()[1]);
            assert(t.subrange(0, 6)[1] != path_prefix()[1]);
        },
    }
}

/// `routed_method` finds exactly the routed calls by their own segments: it gives `m`
/// for `name` when and only when `m` is routed and `name` is `m`'s segment.
pub proof fn lemma_routed_method_iff(name: Seq<u8>, m: Method)
    ensures
        routed_method(name) == Some(m) <==> (is_routed(m) && route_name(m) == name),
{
    reveal(routed_method);
    lemma_route_name(m);
}

} // verus!
