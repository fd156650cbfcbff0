use vstd::prelude::*;
use crate::method::{IntKind, Method, signature, reads_request, fits_kind};
use crate::request::{checked_arguments, lemma_checked_ok_iff};

verus! {

/// `o` holds an integer of Rust's `i32` range.
pub open spec fn holds_i32(o: Option<i128>) -> bool {
    o matches Some(v) && i32::MIN <= v <= i32::MAX
}

/// `o` holds an integer of Rust's `i64` range.
pub open spec fn holds_i64(o: Option<i128>) -> bool {
    o matches Some(v) && i64::MIN <= v <= i64::MAX
}

/// `o` holds an integer of Rust's `u8` range.
pub open spec fn holds_u8(o: Option<i128>) -> bool {
    o matches Some(v) && 0 <= v <= u8::MAX
}

/// `o` holds an integer of Rust's `u32` range.
pub open spec fn holds_u32(o: Option<i128>) -> bool {
    o matches Some(v) && 0 <= v <= u32::MAX
}

/// `o` holds an integer of Rust's `u64` range.
pub open spec fn holds_u64(o: Option<i128>) -> bool {
    o matches Some(v) && 0 <= v <= u64::MAX
}

/// Each argument kind admits exactly the values of the Rust integer type it names:
/// every value of the type, and neither the one below its least nor the one above its greatest.
pub proof fn law_kind_ranges(v: int)
    ensures
        fits_kind(IntKind::I32, v) <==> i32::MIN <= v <= i32::MAX,
        fits_kind(IntKind::I64, v) <==> i64::MIN <= v <= i64::MAX,
        fits_kind(IntKind::U8, v) <==> 0 <= v <= u8::MAX,
        fits_kind(IntKind::U32, v) <==> 0 <= v <= u32::MAX,
        fits_kind(IntKind::U64, v) <==> 0 <= v <= u64::MAX,
{
}

/// A call ignores its request body exactly when it takes no arguments (only `sched_yield`).
pub proof fn law_reads_request_iff_arguments(m: Method)
    ensures
        reads_request(m) <==> signature(m).len() > 0,
        !reads_request(m) <==> m == Method::SchedYield,
{
}

/// `args_get` takes 2 arguments: `argv_ptr` (i32), `argv_buf_ptr` (i32).
/// Exactly the arrays of that many integers, each within its type, pass the check.
pub proof fn law_args_get_arguments(values: Seq<Option<i128>>)
    ensures
        checked_arguments(signature(Method::ArgsGet), values) is Ok <==> (values.len() == 2
            && holds_i32(values[0])
            && holds_i32(values[1])),
{
    let k = signature(Method::ArgsGet);
    lemma_checked_ok_iff(k, values);
    if values.len() == 2 {
        assert(values[0] == values[0]);
        assert(values[1] == values[1]);
        if holds_i32(values[0]) && holds_i32(values[1]) {
            assert forall|i: int| 0 <= i < k.len() implies ((#[trigger] values[i]) matches Some(v) && fits_kind(k[i], v as int)) by {
                if i == 0 {
                } else if i == 1 {
                }
            }
        }
    }
}

/// `args_sizes_get` takes 2 arguments: `argc_ptr` (i32), `argv_buf_size_ptr` (i32).
/// Exactly the arrays of that many integers, each within its type, pass the check.
pub proof fn law_args_sizes_get_arguments(values: Seq<Option<i128>>)
    ensures
        checked_arguments(signature(Method::ArgsSizesGet), values) is Ok <==> (values.len() == 2
            && holds_i32(values[0])
            && holds_i32(values[1])),
{
    let k = signature(Method::ArgsSizesGet);
    lemma_checked_ok_iff(k, values);
    if values.len() == 2 {
        assert(values[0] == values[0]);
        assert(values[1] == values[1]);
        if holds_i32(values[0]) && holds_i32(values[1]) {
            assert forall|i: int| 0 <= i < k.len() implies ((#[trigger] values[i]) matches Some(v) && fits_kind(k[i], v as int)) by {
                if i == 0 {
                } else if i == 1 {
                }
            }
        }
    }
}

/// `environ_get` takes 2 arguments: `environ_ptr` (i32), `environ_buf_ptr` (i32).
/// Exactly the arrays of that many integers, each within its type, pass the check.
pub proof fn law_environ_get_arguments(values: Seq<Option<i128>>)
    ensures
        checked_arguments(signature(Method::EnvironGet), values) is Ok <==> (values.len() == 2
            && holds_i32(values[0])
            && holds_i32(values[1])),
{
    let k = signature(Method::EnvironGet);
    lemma_checked_ok_iff(k, values);
    if values.len() == 2 {
        assert(values[0] == values[0]);
        assert(values[1] == values[1]);
        if holds_i32(values[0]) && holds_i32(values[1]) {
            assert forall|i: int| 0 <= i < k.len() implies ((#[trigger] values[i]) matches Some(v) && fits_kind(k[i], v as int)) by {
                if i == 0 {
                } else if i == 1 {
                }
            }
        }
    }
}

/// `environ_sizes_get` takes 2 arguments: `environ_count_ptr` (i32), `environ_buf_size_ptr` (i32).
/// Exactly the arrays of that many integers, each within its type, pass the check.
pub proof fn law_environ_sizes_get_arguments(values: Seq<Option<i128>>)
    ensures
        checked_arguments(signature(Method::EnvironSizesGet), values) is Ok <==> (values.len() == 2
            && holds_i32(values[0])
            && holds_i32(values[1])),
{
    let k = signature(Method::EnvironSizesGet);
    lemma_checked_ok_iff(k, values);
    if values.len() == 2 {
        assert(values[0] == values[0]);
        assert(values[1] == values[1]);
        if holds_i32(values[0]) && holds_i32(values[1]) {
            assert forall|i: int| 0 <= i < k.len() implies ((#[trigger] values[i]) matches Some(v) && fits_kind(k[i], v as int)) by {
                if i == 0 {
                } else if i == 1 {
                }
            }
        }
    }
}

/// `clock_res_get` takes 2 arguments: `clockid` (i32), `resolution_ptr` (i32).
/// Exactly the arrays of that many integers, each within its type, pass the check.
pub proof fn law_clock_res_get_arguments(values: Seq<Option<i128>>)
    ensures
        checked_arguments(signature(Method::ClockResGet), values) is Ok <==> (values.len() == 2
            && holds_i32(values[0])
            && holds_i32(values[1])),
{
    let k = signature(Method::ClockResGet);
    lemma_checked_ok_iff(k, values);
    if values.len() == 2 {
        assert(values[0] == values[0]);
        assert(values[1] == values[1]);
        if holds_i32(values[0]) && holds_i32(values[1]) {
            assert forall|i: int| 0 <= i < k.len() implies ((#[trigger] values[i]) matches Some(v) && fits_kind(k[i], v as int)) by {
                if i == 0 {
                } else if i == 1 {
                }
            }
        }
    }
}

/// `clock_time_get` takes 3 arguments: `id` (i32), `precision` (i64), `time_ptr` (i32).
/// Exactly the arrays of that many integers, each within its type, pass the check.
pub proof fn law_clock_time_get_arguments(values: Seq<Option<i128>>)
    ensures
        checked_arguments(signature(Method::ClockTimeGet), values) is Ok <==> (values.len() == 3
            && holds_i32(values[0])
            && holds_i64(values[1])
            && holds_i32(values[2])),
{
    let k = signature(Method::ClockTimeGet);
    lemma_checked_ok_iff(k, values);
    if values.len() == 3 {
        assert(values[0] == values[0]);
        assert(values[1] == values[1]);
        assert(values[2] == values[2]);
        if holds_i32(values[0]) && holds_i64(values[1]) && holds_i32(values[2]) {
            assert forall|i: int| 0 <= i < k.len() implies ((#[trigger] values[i]) matches Some(v) && fits_kind(k[i], v as int)) by {
                if i == 0 {
                } else if i == 1 {
                } else if i == 2 {
                }
            }
        }
    }
}

/// `fd_advise` takes 4 arguments: `fd` (i32), `offset` (i64), `len` (i64), `advice` (i32).
/// Exactly the arrays of that many integers, each within its type, pass the check.
pub proof fn law_fd_advise_arguments(values: Seq<Option<i128>>)
    ensures
        checked_arguments(signature(Method::FdAdvise), values) is Ok <==> (values.len() == 4
            && holds_i32(values[0])
            && holds_i64(values[1])
            && holds_i64(values[2])
            && holds_i32(values[3])),
{
    let k = signature(Method::FdAdvise);
    lemma_checked_ok_iff(k, values);
    if values.len() == 4 {
        assert(values[0] == values[0]);
        assert(values[1] == values[1]);
        assert(values[2] == values[2]);
        assert(values[3] == values[3]);
        if holds_i32(values[0]) && holds_i64(values[1]) && holds_i64(values[2]) && holds_i32(values[3]) {
            assert forall|i: int| 0 <= i < k.len() implies ((#[trigger] values[i]) matches Some(v) && fits_kind(k[i], v as int)) by {
                if i == 0 {
                } else if i == 1 {
                } else if i == 2 {
                } else if i == 3 {
                }
            }
        }
    }
}

/// `fd_allocate` takes 3 arguments: `fd` (i32), `offset` (i64), `len` (i64).
/// Exactly the arrays of that many integers, each within its type, pass the check.
pub proof fn law_fd_allocate_arguments(values: Seq<Option<i128>>)
    ensures
        checked_arguments(signature(Method::FdAllocate), values) is Ok <==> (values.len() == 3
            && holds_i32(values[0])
            && holds_i64(values[1])
            && holds_i64(values[2])),
{
    let k = signature(Method::FdAllocate);
    lemma_checked_ok_iff(k, values);
    if values.len() == 3 {
        assert(values[0] == values[0]);
        assert(values[1] == values[1]);
        assert(values[2] == values[2]);
        if holds_i32(values[0]) && holds_i64(values[1]) && holds_i64(values[2]) {
            assert forall|i: int| 0 <= i < k.len() implies ((#[trigger] values[i]) matches Some(v) && fits_kind(k[i], v as int)) by {
                if i == 0 {
                } else if i == 1 {
                } else if i == 2 {
                }
            }
        }
    }
}

/// `fd_close` takes 1 argument: `fd` (u32).
/// Exactly the arrays of that many integers, each within its type, pass the check.
pub proof fn law_fd_close_arguments(values: Seq<Option<i128>>)
    ensures
        checked_arguments(signature(Method::FdClose), values) is Ok <==> (values.len() == 1
            && holds_u32(values[0])),
{
    let k = signature(Method::FdClose);
    lemma_checked_ok_iff(k, values);
    if values.len() == 1 {
        assert(values[0] == values[0]);
        if holds_u32(values[0]) {
            assert forall|i: int| 0 <= i < k.len() implies ((#[trigger] values[i]) matches Some(v) && fits_kind(k[i], v as int)) by {
                if i == 0 {
                }
            }
        }
    }
}

/// `fd_datasync` takes 1 argument: `fd` (u32).
/// Exactly the arrays of that many integers, each within its type, pass the check.
pub proof fn law_fd_datasync_arguments(values: Seq<Option<i128>>)
    ensures
        checked_arguments(signature(Method::FdDatasync), values) is Ok <==> (values.len() == 1
            && holds_u32(values[0])),
{
    let k = signature(Method::FdDatasync);
    lemma_checked_ok_iff(k, values);
    if values.len() == 1 {
        assert(values[0] == values[0]);
        if holds_u32(values[0]) {
            assert forall|i: int| 0 <= i < k.len() implies ((#[trigger] values[i]) matches Some(v) && fits_kind(k[i], v as int)) by {
                if i == 0 {
                }
            }
        }
    }
}

/// `fd_fdstat_get` takes 2 arguments: `fd` (u32), `fdstat_ptr` (u32).
/// Exactly the arrays of that many integers, each within its type, pass the check.
pub proof fn law_fd_fdstat_get_arguments(values: Seq<Option<i128>>)
    ensures
        checked_arguments(signature(Method::FdFdstatGet), values) is Ok <==> (values.len() == 2
            && holds_u32(values[0])
            && holds_u32(values[1])),
{
    let k = signature(Method::FdFdstatGet);
    lemma_checked_ok_iff(k, values);
    if values.len() == 2 {
        assert(values[0] == values[0]);
        assert(values[1] == values[1]);
        if holds_u32(values[0]) && holds_u32(values[1]) {
            assert forall|i: int| 0 <= i < k.len() implies ((#[trigger] values[i]) matches Some(v) && fits_kind(k[i], v as int)) by {
                if i == 0 {
                } else if i == 1 {
                }
            }
        }
    }
}

/// `fd_fdstat_set_flags` takes 2 arguments: `fd` (i32), `flags` (i32).
/// Exactly the arrays of that many integers, each within its type, pass the check.
pub proof fn law_fd_fdstat_set_flags_arguments(values: Seq<Option<i128>>)
    ensures
        checked_arguments(signature(Method::FdFdstatSetFlags), values) is Ok <==> (values.len() == 2
            && holds_i32(values[0])
            && holds_i32(values[1])),
{
    let k = signature(Method::FdFdstatSetFlags);
    lemma_checked_ok_iff(k, values);
    if values.len() == 2 {
        assert(values[0] == values[0]);
        assert(values[1] == values[1]);
        if holds_i32(values[0]) && holds_i32(values[1]) {
            assert forall|i: int| 0 <= i < k.len() implies ((#[trigger] values[i]) matches Some(v) && fits_kind(k[i], v as int)) by {
                if i == 0 {
                } else if i == 1 {
                }
            }
        }
    }
}

/// `fd_fdstat_set_rights` takes 3 arguments: `fd` (i32), `fs_rights_base` (i64), `fs_rights_inheriting` (i64).
/// Exactly the arrays of that many integers, each within its type, pass the check.
pub proof fn law_fd_fdstat_set_rights_arguments(values: Seq<Option<i128>>)
    ensures
        checked_arguments(signature(Method::FdFdstatSetRights), values) is Ok <==> (values.len() == 3
            && holds_i32(values[0])
            && holds_i64(values[1])
            && holds_i64(values[2])),
{
    let k = signature(Method::FdFdstatSetRights);
    lemma_checked_ok_iff(k, values);
    if values.len() == 3 {
        assert(values[0] == values[0]);
        assert(values[1] == values[1]);
        assert(values[2] == values[2]);
        if holds_i32(values[0]) && holds_i64(values[1]) && holds_i64(values[2]) {
            assert forall|i: int| 0 <= i < k.len() implies ((#[trigger] values[i]) matches Some(v) && fits_kind(k[i], v as int)) by {
                if i == 0 {
                } else if i == 1 {
                } else if i == 2 {
                }
            }
        }
    }
}

/// `fd_filestat_get` takes 2 arguments: `fd` (u32), `filestat_ptr` (u32).
/// Exactly the arrays of that many integers, each within its type, pass the check.
pub proof fn law_fd_filestat_get_arguments(values: Seq<Option<i128>>)
    ensures
        checked_arguments(signature(Method::FdFilestatGet), values) is Ok <==> (values.len() == 2
            && holds_u32(values[0])
            && holds_u32(values[1])),
{
    let k = signature(Method::FdFilestatGet);
    lemma_checked_ok_iff(k, values);
    if values.len() == 2 {
        assert(values[0] == values[0]);
        assert(values[1] == values[1]);
        if holds_u32(values[0]) && holds_u32(values[1]) {
            assert forall|i: int| 0 <= i < k.len() implies ((#[trigger] values[i]) matches Some(v) && fits_kind(k[i], v as int)) by {
                if i == 0 {
                } else if i == 1 {
                }
            }
        }
    }
}

/// `fd_filestat_set_size` takes 2 arguments: `fd` (u32), `size` (u64).
/// Exactly the arrays of that many integers, each within its type, pass the check.
pub proof fn law_fd_filestat_set_size_arguments(values: Seq<Option<i128>>)
    ensures
        checked_arguments(signature(Method::FdFilestatSetSize), values) is Ok <==> (values.len() == 2
            && holds_u32(values[0])
            && holds_u64(values[1])),
{
    let k = signature(Method::FdFilestatSetSize);
    lemma_checked_ok_iff(k, values);
    if values.len() == 2 {
        assert(values[0] == values[0]);
        assert(values[1] == values[1]);
        if holds_u32(values[0]) && holds_u64(values[1]) {
            assert forall|i: int| 0 <= i < k.len() implies ((#[trigger] values[i]) matches Some(v) && fits_kind(k[i], v as int)) by {
                if i == 0 {
                } else if i == 1 {
                }
            }
        }
    }
}

/// `fd_filestat_set_times` takes 4 arguments: `fd` (i32), `atim` (i64), `mtim` (i64), `fst_flags` (i32).
/// Exactly the arrays of that many integers, each within its type, pass the check.
pub proof fn law_fd_filestat_set_times_arguments(values: Seq<Option<i128>>)
    ensures
        checked_arguments(signature(Method::FdFilestatSetTimes), values) is Ok <==> (values.len() == 4
            && holds_i32(values[0])
            && holds_i64(values[1])
            && holds_i64(values[2])
            && holds_i32(values[3])),
{
    let k = signature(Method::FdFilestatSetTimes);
    lemma_checked_ok_iff(k, values);
    if values.len() == 4 {
        assert(values[0] == values[0]);
        assert(values[1] == values[1]);
        assert(values[2] == values[2]);
        assert(values[3] == values[3]);
        if holds_i32(values[0]) && holds_i64(values[1]) && holds_i64(values[2]) && holds_i32(values[3]) {
            assert forall|i: int| 0 <= i < k.len() implies ((#[trigger] values[i]) matches Some(v) && fits_kind(k[i], v as int)) by {
                if i == 0 {
                } else if i == 1 {
                } else if i == 2 {
                } else if i == 3 {
                }
            }
        }
    }
}

/// `fd_pread` takes 5 arguments: `fd` (i32), `iovs_ptr` (i32), `iovs_len` (i32), `offset` (i64), `nread_ptr` (i32).
/// Exactly the arrays of that many integers, each within its type, pass the check.
pub proof fn law_fd_pread_arguments(values: Seq<Option<i128>>)
    ensures
        checked_arguments(signature(Method::FdPread), values) is Ok <==> (values.len() == 5
            && holds_i32(values[0])
            && holds_i32(values[1])
            && holds_i32(values[2])
            && holds_i64(values[3])
            && holds_i32(values[4])),
{
    let k = signature(Method::FdPread);
    lemma_checked_ok_iff(k, values);
    if values.len() == 5 {
        assert(values[0] == values[0]);
        assert(values[1] == values[1]);
        assert(values[2] == values[2]);
        assert(values[3] == values[3]);
        assert(values[4] == values[4]);
        if holds_i32(values[0]) && holds_i32(values[1]) && holds_i32(values[2]) && holds_i64(values[3]) && holds_i32(values[4]) {
            assert forall|i: int| 0 <= i < k.len() implies ((#[trigger] values[i]) matches Some(v) && fits_kind(k[i], v as int)) by {
                if i == 0 {
                } else if i == 1 {
                } else if i == 2 {
                } else if i == 3 {
                } else if i == 4 {
                }
            }
        }
    }
}

/// `fd_prestat_get` takes 2 arguments: `fd` (u32), `buf_ptr` (u32).
/// Exactly the arrays of that many integers, each within its type, pass the check.
pub proof fn law_fd_prestat_get_arguments(values: Seq<Option<i128>>)
    ensures
        checked_arguments(signature(Method::FdPrestatGet), values) is Ok <==> (values.len() == 2
            && holds_u32(values[0])
            && holds_u32(values[1])),
{
    let k = signature(Method::FdPrestatGet);
    lemma_checked_ok_iff(k, values);
    if values.len() == 2 {
        assert(values[0] == values[0]);
        assert(values[1] == values[1]);
        if holds_u32(values[0]) && holds_u32(values[1]) {
            assert forall|i: int| 0 <= i < k.len() implies ((#[trigger] values[i]) matches Some(v) && fits_kind(k[i], v as int)) by {
                if i == 0 {
                } else if i == 1 {
                }
            }
        }
    }
}

/// `fd_prestat_dir_name` takes 3 arguments: `fd` (u32), `path` (u32), `path_len` (u32).
/// Exactly the arrays of that many integers, each within its type, pass the check.
pub proof fn law_fd_prestat_dir_name_arguments(values: Seq<Option<i128>>)
    ensures
        checked_arguments(signature(Method::FdPrestatDirName), values) is Ok <==> (values.len() == 3
            && holds_u32(values[0])
            && holds_u32(values[1])
            && holds_u32(values[2])),
{
    let k = signature(Method::FdPrestatDirName);
    lemma_checked_ok_iff(k, values);
    if values.len() == 3 {
        assert(values[0] == values[0]);
        assert(values[1] == values[1]);
        assert(values[2] == values[2]);
        if holds_u32(values[0]) && holds_u32(values[1]) && holds_u32(values[2]) {
            assert forall|i: int| 0 <= i < k.len() implies ((#[trigger] values[i]) matches Some(v) && fits_kind(k[i], v as int)) by {
                if i == 0 {
                } else if i == 1 {
                } else if i == 2 {
                }
            }
        }
    }
}

/// `fd_pwrite` takes 5 arguments: `fd` (u32), `iovs_ptr` (u32), `iovs_len` (u32), `offset` (u64), `nwritten_ptr` (u32).
/// Exactly the arrays of that many integers, each within its type, pass the check.
pub proof fn law_fd_pwrite_arguments(values: Seq<Option<i128>>)
    ensures
        checked_arguments(signature(Method::FdPwrite), values) is Ok <==> (values.len() == 5
            && holds_u32(values[0])
            && holds_u32(values[1])
            && holds_u32(values[2])
            && holds_u64(values[3])
            && holds_u32(values[4])),
{
    let k = signature(Method::FdPwrite);
    lemma_checked_ok_iff(k, values);
    if values.len() == 5 {
        assert(values[0] == values[0]);
        assert(values[1] == values[1]);
        assert(values[2] == values[2]);
        assert(values[3] == values[3]);
        assert(values[4] == values[4]);
        if holds_u32(values[0]) && holds_u32(values[1]) && holds_u32(values[2]) && holds_u64(values[3]) && holds_u32(values[4]) {
            assert forall|i: int| 0 <= i < k.len() implies ((#[trigger] values[i]) matches Some(v) && fits_kind(k[i], v as int)) by {
                if i == 0 {
                } else if i == 1 {
                } else if i == 2 {
                } else if i == 3 {
                } else if i == 4 {
                }
            }
        }
    }
}

/// `fd_read` takes 4 arguments: `fd` (i32), `iovs_ptr` (i32), `iovs_len` (i32), `nread_ptr` (i32).
/// Exactly the arrays of that many integers, each within its type, pass the check.
pub proof fn law_fd_read_arguments(values: Seq<Option<i128>>)
    ensures
        checked_arguments(signature(Method::FdRead), values) is Ok <==> (values.len() == 4
            && holds_i32(values[0])
            && holds_i32(values[1])
            && holds_i32(values[2])
            && holds_i32(values[3])),
{
    let k = signature(Method::FdRead);
    lemma_checked_ok_iff(k, values);
    if values.len() == 4 {
        assert(values[0] == values[0]);
        assert(values[1] == values[1]);
        assert(values[2] == values[2]);
        assert(values[3] == values[3]);
        if holds_i32(values[0]) && holds_i32(values[1]) && holds_i32(values[2]) && holds_i32(values[3]) {
            assert forall|i: int| 0 <= i < k.len() implies ((#[trigger] values[i]) matches Some(v) && fits_kind(k[i], v as int)) by {
                if i == 0 {
                } else if i == 1 {
                } else if i == 2 {
                } else if i == 3 {
                }
            }
        }
    }
}

/// `fd_readdir` takes 5 arguments: `fd` (u32), `buf_ptr` (u32), `buf_len` (u32), `cookie` (u64), `bufused_ptr` (u32).
/// Exactly the arrays of that many integers, each within its type, pass the check.
pub proof fn law_fd_readdir_arguments(values: Seq<Option<i128>>)
    ensures
        checked_arguments(signature(Method::FdReaddir), values) is Ok <==> (values.len() == 5
            && holds_u32(values[0])
            && holds_u32(values[1])
            && holds_u32(values[2])
            && holds_u64(values[3])
            && holds_u32(values[4])),
{
    let k = signature(Method::FdReaddir);
    lemma_checked_ok_iff(k, values);
    if values.len() == 5 {
        assert(values[0] == values[0]);
        assert(values[1] == values[1]);
        assert(values[2] == values[2]);
        assert(values[3] == values[3]);
        assert(values[4] == values[4]);
        if holds_u32(values[0]) && holds_u32(values[1]) && holds_u32(values[2]) && holds_u64(values[3]) && holds_u32(values[4]) {
            assert forall|i: int| 0 <= i < k.len() implies ((#[trigger] values[i]) matches Some(v) && fits_kind(k[i], v as int)) by {
                if i == 0 {
                } else if i == 1 {
                } else if i == 2 {
                } else if i == 3 {
                } else if i == 4 {
                }
            }
        }
    }
}

/// `fd_renumber` takes 2 arguments: `fd` (u32), `to` (u32).
/// Exactly the arrays of that many integers, each within its type, pass the check.
pub proof fn law_fd_renumber_arguments(values: Seq<Option<i128>>)
    ensures
        checked_arguments(signature(Method::FdRenumber), values) is Ok <==> (values.len() == 2
            && holds_u32(values[0])
            && holds_u32(values[1])),
{
    let k = signature(Method::FdRenumber);
    lemma_checked_ok_iff(k, values);
    if values.len() == 2 {
        assert(values[0] == values[0]);
        assert(values[1] == values[1]);
        if holds_u32(values[0]) && holds_u32(values[1]) {
            assert forall|i: int| 0 <= i < k.len() implies ((#[trigger] values[i]) matches Some(v) && fits_kind(k[i], v as int)) by {
                if i == 0 {
                } else if i == 1 {
                }
            }
        }
    }
}

/// `fd_seek` takes 4 arguments: `fd` (u32), `offset` (i64), `whence` (u8), `newoffset_ptr` (u32).
/// Exactly the arrays of that many integers, each within its type, pass the check.
pub proof fn law_fd_seek_arguments(values: Seq<Option<i128>>)
    ensures
        checked_arguments(signature(Method::FdSeek), values) is Ok <==> (values.len() == 4
            && holds_u32(values[0])
            && holds_i64(values[1])
            && holds_u8(values[2])
            && holds_u32(values[3])),
{
    let k = signature(Method::FdSeek);
    lemma_checked_ok_iff(k, values);
    if values.len() == 4 {
        assert(values[0] == values[0]);
        assert(values[1] == values[1]);
        assert(values[2] == values[2]);
        assert(values[3] == values[3]);
        if holds_u32(values[0]) && holds_i64(values[1]) && holds_u8(values[2]) && holds_u32(values[3]) {
            assert forall|i: int| 0 <= i < k.len() implies ((#[trigger] values[i]) matches Some(v) && fits_kind(k[i], v as int)) by {
                if i == 0 {
                } else if i == 1 {
                } else if i == 2 {
                } else if i == 3 {
                }
            }
        }
    }
}

/// `fd_sync` takes 1 argument: `fd` (u32).
/// Exactly the arrays of that many integers, each within its type, pass the check.
pub proof fn law_fd_sync_arguments(values: Seq<Option<i128>>)
    ensures
        checked_arguments(signature(Method::FdSync), values) is Ok <==> (values.len() == 1
            && holds_u32(values[0])),
{
    let k = signature(Method::FdSync);
    lemma_checked_ok_iff(k, values);
    if values.len() == 1 {
        assert(values[0] == values[0]);
        if holds_u32(values[0]) {
            assert forall|i: int| 0 <= i < k.len() implies ((#[trigger] values[i]) matches Some(v) && fits_kind(k[i], v as int)) by {
                if i == 0 {
                }
            }
        }
    }
}

/// `fd_tell` takes 2 arguments: `fd` (u32), `offset_ptr` (u64).
/// Exactly the arrays of that many integers, each within its type, pass the check.
pub proof fn law_fd_tell_arguments(values: Seq<Option<i128>>)
    ensures
        checked_arguments(signature(Method::FdTell), values) is Ok <==> (values.len() == 2
            && holds_u32(values[0])
            && holds_u64(values[1])),
{
    let k = signature(Method::FdTell);
    lemma_checked_ok_iff(k, values);
    if values.len() == 2 {
        assert(values[0] == values[0]);
        assert(values[1] == values[1]);
        if holds_u32(values[0]) && holds_u64(values[1]) {
            assert forall|i: int| 0 <= i < k.len() implies ((#[trigger] values[i]) matches Some(v) && fits_kind(k[i], v as int)) by {
                if i == 0 {
                } else if i == 1 {
                }
            }
        }
    }
}

/// `fd_write` takes 4 arguments: `fd` (u32), `iovs_ptr` (u32), `iovs_len` (u32), `nwritten_ptr` (u32).
/// Exactly the arrays of that many integers, each within its type, pass the check.
pub proof fn law_fd_write_arguments(values: Seq<Option<i128>>)
    ensures
        checked_arguments(signature(Method::FdWrite), values) is Ok <==> (values.len() == 4
            && holds_u32(values[0])
            && holds_u32(values[1])
            && holds_u32(values[2])
            && holds_u32(values[3])),
{
    let k = signature(Method::FdWrite);
    lemma_checked_ok_iff(k, values);
    if values.len() == 4 {
        assert(values[0] == values[0]);
        assert(values[1] == values[1]);
        assert(values[2] == values[2]);
        assert(values[3] == values[3]);
        if holds_u32(values[0]) && holds_u32(values[1]) && holds_u32(values[2]) && holds_u32(values[3]) {
            assert forall|i: int| 0 <= i < k.len() implies ((#[trigger] values[i]) matches Some(v) && fits_kind(k[i], v as int)) by {
                if i == 0 {
                } else if i == 1 {
                } else if i == 2 {
                } else if i == 3 {
                }
            }
        }
    }
}

/// `path_create_directory` takes 3 arguments: `fd` (i32), `path_ptr` (i32), `path_len` (i32).
/// Exactly the arrays of that many integers, each within its type, pass the check.
pub proof fn law_path_create_directory_arguments(values: Seq<Option<i128>>)
    ensures
        checked_arguments(signature(Method::PathCreateDirectory), values) is Ok <==> (values.len() == 3
            && holds_i32(values[0])
            && holds_i32(values[1])
            && holds_i32(values[2])),
{
    let k = signature(Method::PathCreateDirectory);
    lemma_checked_ok_iff(k, values);
    if values.len() == 3 {
        assert(values[0] == values[0]);
        assert(values[1] == values[1]);
        assert(values[2] == values[2]);
        if holds_i32(values[0]) && holds_i32(values[1]) && holds_i32(values[2]) {
            assert forall|i: int| 0 <= i < k.len() implies ((#[trigger] values[i]) matches Some(v) && fits_kind(k[i], v as int)) by {
                if i == 0 {
                } else if i == 1 {
                } else if i == 2 {
                }
            }
        }
    }
}

/// `path_filestat_get` takes 5 arguments: `fd` (i32), `flags` (i32), `path_ptr` (i32), `path_len` (i32), `buf` (i32).
/// Exactly the arrays of that many integers, each within its type, pass the check.
pub proof fn law_path_filestat_get_arguments(values: Seq<Option<i128>>)
    ensures
        checked_arguments(signature(Method::PathFilestatGet), values) is Ok <==> (values.len() == 5
            && holds_i32(values[0])
            && holds_i32(values[1])
            && holds_i32(values[2])
            && holds_i32(values[3])
            && holds_i32(values[4])),
{
    let k = signature(Method::PathFilestatGet);
    lemma_checked_ok_iff(k, values);
    if values.len() == 5 {
        assert(values[0] == values[0]);
        assert(values[1] == values[1]);
        assert(values[2] == values[2]);
        assert(values[3] == values[3]);
        assert(values[4] == values[4]);
        if holds_i32(values[0]) && holds_i32(values[1]) && holds_i32(values[2]) && holds_i32(values[3]) && holds_i32(values[4]) {
            assert forall|i: int| 0 <= i < k.len() implies ((#[trigger] values[i]) matches Some(v) && fits_kind(k[i], v as int)) by {
                if i == 0 {
                } else if i == 1 {
                } else if i == 2 {
                } else if i == 3 {
                } else if i == 4 {
                }
            }
        }
    }
}

/// `path_filestat_set_times` takes 7 arguments: `fd` (i32), `flags` (i32), `path_ptr` (i32), `path_len` (i32), `atim` (i64), `mtim` (i64), `fst_flags` (i32).
/// Exactly the arrays of that many integers, each within its type, pass the check.
pub proof fn law_path_filestat_set_times_arguments(values: Seq<Option<i128>>)
    ensures
        checked_arguments(signature(Method::PathFilestatSetTimes), values) is Ok <==> (values.len() == 7
            && holds_i32(values[0])
            && holds_i32(values[1])
            && holds_i32(values[2])
            && holds_i32(values[3])
            && holds_i64(values[4])
            && holds_i64(values[5])
            && holds_i32(values[6])),
{
    let k = signature(Method::PathFilestatSetTimes);
    lemma_checked_ok_iff(k, values);
    if values.len() == 7 {
        assert(values[0] == values[0]);
        assert(values[1] == values[1]);
        assert(values[2] == values[2]);
        assert(values[3] == values[3]);
        assert(values[4] == values[4]);
        assert(values[5] == values[5]);
        assert(values[6] == values[6]);
        if holds_i32(values[0]) && holds_i32(values[1]) && holds_i32(values[2]) && holds_i32(values[3]) && holds_i64(values[4]) && holds_i64(values[5]) && holds_i32(values[6]) {
            assert forall|i: int| 0 <= i < k.len() implies ((#[trigger] values[i]) matches Some(v) && fits_kind(k[i], v as int)) by {
                if i == 0 {
                } else if i == 1 {
                } else if i == 2 {
                } else if i == 3 {
                } else if i == 4 {
                } else if i == 5 {
                } else if i == 6 {
                }
            }
        }
    }
}

/// `path_link` takes 7 arguments: `old_fd` (i32), `old_flags` (i32), `old_path_ptr` (i32), `old_path_len` (i32), `new_fd` (i32), `new_path_ptr` (i32), `new_path_len` (i32).
/// Exactly the arrays of that many integers, each within its type, pass the check.
pub proof fn law_path_link_arguments(values: Seq<Option<i128>>)
    ensures
        checked_arguments(signature(Method::PathLink), values) is Ok <==> (values.len() == 7
            && holds_i32(values[0])
            && holds_i32(values[1])
            && holds_i32(values[2])
            && holds_i32(values[3])
            && holds_i32(values[4])
            && holds_i32(values[5])
            && holds_i32(values[6])),
{
    let k = signature(Method::PathLink);
    lemma_checked_ok_iff(k, values);
    if values.len() == 7 {
        assert(values[0] == values[0]);
        assert(values[1] == values[1]);
        assert(values[2] == values[2]);
        assert(values[3] == values[3]);
        assert(values[4] == values[4]);
        assert(values[5] == values[5]);
        assert(values[6] == values[6]);
        if holds_i32(values[0]) && holds_i32(values[1]) && holds_i32(values[2]) && holds_i32(values[3]) && holds_i32(values[4]) && holds_i32(values[5]) && holds_i32(values[6]) {
            assert forall|i: int| 0 <= i < k.len() implies ((#[trigger] values[i]) matches Some(v) && fits_kind(k[i], v as int)) by {
                if i == 0 {
                } else if i == 1 {
                } else if i == 2 {
                } else if i == 3 {
                } else if i == 4 {
                } else if i == 5 {
                } else if i == 6 {
                }
            }
        }
    }
}

/// `path_open` takes 9 arguments: `fd` (i32), `dirflags` (i32), `path_ptr` (i32), `path_len` (i32), `oflags` (i32), `fs_rights_base` (i64), `fs_rights_inheriting` (i64), `fdflags` (i32), `fd_ptr` (i32).
/// Exactly the arrays of that many integers, each within its type, pass the check.
pub proof fn law_path_open_arguments(values: Seq<Option<i128>>)
    ensures
        checked_arguments(signature(Method::PathOpen), values) is Ok <==> (values.len() == 9
            && holds_i32(values[0])
            && holds_i32(values[1])
            && holds_i32(values[2])
            && holds_i32(values[3])
            && holds_i32(values[4])
            && holds_i64(values[5])
            && holds_i64(values[6])
            && holds_i32(values[7])
            && holds_i32(values[8])),
{
    let k = signature(Method::PathOpen);
    lemma_checked_ok_iff(k, values);
    if values.len() == 9 {
        assert(values[0] == values[0]);
        assert(values[1] == values[1]);
        assert(values[2] == values[2]);
        assert(values[3] == values[3]);
        assert(values[4] == values[4]);
        assert(values[5] == values[5]);
        assert(values[6] == values[6]);
        assert(values[7] == values[7]);
        assert(values[8] == values[8]);
        if holds_i32(values[0]) && holds_i32(values[1]) && holds_i32(values[2]) && holds_i32(values[3]) && holds_i32(values[4]) && holds_i64(values[5]) && holds_i64(values[6]) && holds_i32(values[7]) && holds_i32(values[8]) {
            assert forall|i: int| 0 <= i < k.len() implies ((#[trigger] values[i]) matches Some(v) && fits_kind(k[i], v as int)) by {
                if i == 0 {
                } else if i == 1 {
                } else if i == 2 {
                } else if i == 3 {
                } else if i == 4 {
                } else if i == 5 {
                } else if i == 6 {
                } else if i == 7 {
                } else if i == 8 {
                }
            }
        }
    }
}

/// `path_readlink` takes 6 arguments: `fd` (i32), `path_ptr` (i32), `path_len` (i32), `buf` (i32), `buf_len` (i32), `bufused_ptr` (i32).
/// Exactly the arrays of that many integers, each within its type, pass the check.
pub proof fn law_path_readlink_arguments(values: Seq<Option<i128>>)
    ensures
        checked_arguments(signature(Method::PathReadlink), values) is Ok <==> (values.len() == 6
            && holds_i32(values[0])
            && holds_i32(values[1])
            && holds_i32(values[2])
            && holds_i32(values[3])
            && holds_i32(values[4])
            && holds_i32(values[5])),
{
    let k = signature(Method::PathReadlink);
    lemma_checked_ok_iff(k, values);
    if values.len() == 6 {
        assert(values[0] == values[0]);
        assert(values[1] == values[1]);
        assert(values[2] == values[2]);
        assert(values[3] == values[3]);
        assert(values[4] == values[4]);
        assert(values[5] == values[5]);
        if holds_i32(values[0]) && holds_i32(values[1]) && holds_i32(values[2]) && holds_i32(values[3]) && holds_i32(values[4]) && holds_i32(values[5]) {
            assert forall|i: int| 0 <= i < k.len() implies ((#[trigger] values[i]) matches Some(v) && fits_kind(k[i], v as int)) by {
                if i == 0 {
                } else if i == 1 {
                } else if i == 2 {
                } else if i == 3 {
                } else if i == 4 {
                } else if i == 5 {
                }
            }
        }
    }
}

/// `path_remove_directory` takes 3 arguments: `fd` (i32), `path_ptr` (i32), `path_len` (i32).
/// Exactly the arrays of that many integers, each within its type, pass the check.
pub proof fn law_path_remove_directory_arguments(values: Seq<Option<i128>>)
    ensures
        checked_arguments(signature(Method::PathRemoveDirectory), values) is Ok <==> (values.len() == 3
            && holds_i32(values[0])
            && holds_i32(values[1])
            && holds_i32(values[2])),
{
    let k = signature(Method::PathRemoveDirectory);
    lemma_checked_ok_iff(k, values);
    if values.len() == 3 {
        assert(values[0] == values[0]);
        assert(values[1] == values[1]);
        assert(values[2] == values[2]);
        if holds_i32(values[0]) && holds_i32(values[1]) && holds_i32(values[2]) {
            assert forall|i: int| 0 <= i < k.len() implies ((#[trigger] values[i]) matches Some(v) && fits_kind(k[i], v as int)) by {
                if i == 0 {
                } else if i == 1 {
                } else if i == 2 {
                }
            }
        }
    }
}

/// `path_rename` takes 6 arguments: `fd` (i32), `old_path_ptr` (i32), `old_path_len` (i32), `new_fd` (i32), `new_path_ptr` (i32), `new_path_len` (i32).
/// Exactly the arrays of that many integers, each within its type, pass the check.
pub proof fn law_path_rename_arguments(values: Seq<Option<i128>>)
    ensures
        checked_arguments(signature(Method::PathRename), values) is Ok <==> (values.len() == 6
            && holds_i32(values[0])
            && holds_i32(values[1])
            && holds_i32(values[2])
            && holds_i32(values[3])
            && holds_i32(values[4])
            && holds_i32(values[5])),
{
    let k = signature(Method::PathRename);
    lemma_checked_ok_iff(k, values);
    if values.len() == 6 {
        assert(values[0] == values[0]);
        assert(values[1] == values[1]);
        assert(values[2] == values[2]);
        assert(values[3] == values[3]);
        assert(values[4] == values[4]);
        assert(values[5] == values[5]);
        if holds_i32(values[0]) && holds_i32(values[1]) && holds_i32(values[2]) && holds_i32(values[3]) && holds_i32(values[4]) && holds_i32(values[5]) {
            assert forall|i: int| 0 <= i < k.len() implies ((#[trigger] values[i]) matches Some(v) && fits_kind(k[i], v as int)) by {
                if i == 0 {
                } else if i == 1 {
                } else if i == 2 {
                } else if i == 3 {
                } else if i == 4 {
                } else if i == 5 {
                }
            }
        }
    }
}

/// `path_symlink` takes 5 arguments: `old_path_ptr` (i32), `old_path_len` (i32), `fd` (i32), `new_path_ptr` (i32), `new_path_len` (i32).
/// Exactly the arrays of that many integers, each within its type, pass the check.
pub proof fn law_path_symlink_arguments(values: Seq<Option<i128>>)
    ensures
        checked_arguments(signature(Method::PathSymlink), values) is Ok <==> (values.len() == 5
            && holds_i32(values[0])
            && holds_i32(values[1])
            && holds_i32(values[2])
            && holds_i32(values[3])
            && holds_i32(values[4])),
{
    let k = signature(Method::PathSymlink);
    lemma_checked_ok_iff(k, values);
    if values.len() == 5 {
        assert(values[0] == values[0]);
        assert(values[1] == values[1]);
        assert(values[2] == values[2]);
        assert(values[3] == values[3]);
        assert(values[4] == values[4]);
        if holds_i32(values[0]) && holds_i32(values[1]) && holds_i32(values[2]) && holds_i32(values[3]) && holds_i32(values[4]) {
            assert forall|i: int| 0 <= i < k.len() implies ((#[trigger] values[i]) matches Some(v) && fits_kind(k[i], v as int)) by {
                if i == 0 {
                } else if i == 1 {
                } else if i == 2 {
                } else if i == 3 {
                } else if i == 4 {
                }
            }
        }
    }
}

/// `path_unlink_file` takes 3 arguments: `fd` (i32), `path_ptr` (i32), `path_len` (i32).
/// Exactly the arrays of that many integers, each within its type, pass the check.
pub proof fn law_path_unlink_file_arguments(values: Seq<Option<i128>>)
    ensures
        checked_arguments(signature(Method::PathUnlinkFile), values) is Ok <==> (values.len() == 3
            && holds_i32(values[0])
            && holds_i32(values[1])
            && holds_i32(values[2])),
{
    let k = signature(Method::PathUnlinkFile);
    lemma_checked_ok_iff(k, values);
    if values.len() == 3 {
        assert(values[0] == values[0]);
        assert(values[1] == values[1]);
        assert(values[2] == values[2]);
        if holds_i32(values[0]) && holds_i32(values[1]) && holds_i32(values[2]) {
            assert forall|i: int| 0 <= i < k.len() implies ((#[trigger] values[i]) matches Some(v) && fits_kind(k[i], v as int)) by {
                if i == 0 {
                } else if i == 1 {
                } else if i == 2 {
                }
            }
        }
    }
}

/// `poll_oneoff` takes 4 arguments: `in_ptr` (i32), `out_ptr` (i32), `nsubscriptions` (i32), `nevents_ptr` (i32).
/// Exactly the arrays of that many integers, each within its type, pass the check.
pub proof fn law_poll_oneoff_arguments(values: Seq<Option<i128>>)
    ensures
        checked_arguments(signature(Method::PollOneoff), values) is Ok <==> (values.len() == 4
            && holds_i32(values[0])
            && holds_i32(values[1])
            && holds_i32(values[2])
            && holds_i32(values[3])),
{
    let k = signature(Method::PollOneoff);
    lemma_checked_ok_iff(k, values);
    if values.len() == 4 {
        assert(values[0] == values[0]);
        assert(values[1] == values[1]);
        assert(values[2] == values[2]);
        assert(values[3] == values[3]);
        if holds_i32(values[0]) && holds_i32(values[1]) && holds_i32(values[2]) && holds_i32(values[3]) {
            assert forall|i: int| 0 <= i < k.len() implies ((#[trigger] values[i]) matches Some(v) && fits_kind(k[i], v as int)) by {
                if i == 0 {
                } else if i == 1 {
                } else if i == 2 {
                } else if i == 3 {
                }
            }
        }
    }
}

/// `proc_exit` takes 1 argument: `rval` (i32).
/// Exactly the arrays of that many integers, each within its type, pass the check.
pub proof fn law_proc_exit_arguments(values: Seq<Option<i128>>)
    ensures
        checked_arguments(signature(Method::ProcExit), values) is Ok <==> (values.len() == 1
            && holds_i32(values[0])),
{
    let k = signature(Method::ProcExit);
    lemma_checked_ok_iff(k, values);
    if values.len() == 1 {
        assert(values[0] == values[0]);
        if holds_i32(values[0]) {
            assert forall|i: int| 0 <= i < k.len() implies ((#[trigger] values[i]) matches Some(v) && fits_kind(k[i], v as int)) by {
                if i == 0 {
                }
            }
        }
    }
}

/// `proc_raise` takes 1 argument: `sig` (i32).
/// Exactly the arrays of that many integers, each within its type, pass the check.
pub proof fn law_proc_raise_arguments(values: Seq<Option<i128>>)
    ensures
        checked_arguments(signature(Method::ProcRaise), values) is Ok <==> (values.len() == 1
            && holds_i32(values[0])),
{
    let k = signature(Method::ProcRaise);
    lemma_checked_ok_iff(k, values);
    if values.len() == 1 {
        assert(values[0] == values[0]);
        if holds_i32(values[0]) {
            assert forall|i: int| 0 <= i < k.len() implies ((#[trigger] values[i]) matches Some(v) && fits_kind(k[i], v as int)) by {
                if i == 0 {
                }
            }
        }
    }
}

/// `sched_yield` takes no arguments: only the empty array passes.
pub proof fn law_sched_yield_arguments(values: Seq<Option<i128>>)
    ensures
        checked_arguments(signature(Method::SchedYield), values) is Ok <==> values.len() == 0,
{
    lemma_checked_ok_iff(signature(Method::SchedYield), values);
}

/// `random_get` takes 2 arguments: `buf_ptr` (i32), `buf_len` (i32).
/// Exactly the arrays of that many integers, each within its type, pass the check.
pub proof fn law_random_get_arguments(values: Seq<Option<i128>>)
    ensures
        checked_arguments(signature(Method::RandomGet), values) is Ok <==> (values.len() == 2
            && holds_i32(values[0])
            && holds_i32(values[1])),
{
    let k = signature(Method::RandomGet);
    lemma_checked_ok_iff(k, values);
    if values.len() == 2 {
        assert(values[0] == values[0]);
        assert(values[1] == values[1]);
        if holds_i32(values[0]) && holds_i32(values[1]) {
            assert forall|i: int| 0 <= i < k.len() implies ((#[trigger] values[i]) matches Some(v) && fits_kind(k[i], v as int)) by {
                if i == 0 {
                } else if i == 1 {
                }
            }
        }
    }
}

/// `sock_accept` takes 3 arguments: `fd` (i32), `flags` (i32), `result_fd_ptr` (i32).
/// Exactly the arrays of that many integers, each within its type, pass the check.
pub proof fn law_sock_accept_arguments(values: Seq<Option<i128>>)
    ensures
        checked_arguments(signature(Method::SockAccept), values) is Ok <==> (values.len() == 3
            && holds_i32(values[0])
            && holds_i32(values[1])
            && holds_i32(values[2])),
{
    let k = signature(Method::SockAccept);
    lemma_checked_ok_iff(k, values);
    if values.len() == 3 {
        assert(values[0] == values[0]);
        assert(values[1] == values[1]);
        assert(values[2] == values[2]);
        if holds_i32(values[0]) && holds_i32(values[1]) && holds_i32(values[2]) {
            assert forall|i: int| 0 <= i < k.len() implies ((#[trigger] values[i]) matches Some(v) && fits_kind(k[i], v as int)) by {
                if i == 0 {
                } else if i == 1 {
                } else if i == 2 {
                }
            }
        }
    }
}

/// `sock_recv` takes 6 arguments: `fd` (i32), `ri_data_ptr` (i32), `ri_data_len` (i32), `ri_flags` (i32), `size_ptr` (i32), `roflags_ptr` (i32).
/// Exactly the arrays of that many integers, each within its type, pass the check.
pub proof fn law_sock_recv_arguments(values: Seq<Option<i128>>)
    ensures
        checked_arguments(signature(Method::SockRecv), values) is Ok <==> (values.len() == 6
            && holds_i32(values[0])
            && holds_i32(values[1])
            && holds_i32(values[2])
            && holds_i32(values[3])
            && holds_i32(values[4])
            && holds_i32(values[5])),
{
    let k = signature(Method::SockRecv);
    lemma_checked_ok_iff(k, values);
    if values.len() == 6 {
        assert(values[0] == values[0]);
        assert(values[1] == values[1]);
        assert(values[2] == values[2]);
        assert(values[3] == values[3]);
        assert(values[4] == values[4]);
        assert(values[5] == values[5]);
        if holds_i32(values[0]) && holds_i32(values[1]) && holds_i32(values[2]) && holds_i32(values[3]) && holds_i32(values[4]) && holds_i32(values[5]) {
            assert forall|i: int| 0 <= i < k.len() implies ((#[trigger] values[i]) matches Some(v) && fits_kind(k[i], v as int)) by {
                if i == 0 {
                } else if i == 1 {
                } else if i == 2 {
                } else if i == 3 {
                } else if i == 4 {
                } else if i == 5 {
                }
            }
        }
    }
}

/// `sock_send` takes 5 arguments: `fd` (i32), `si_data_ptr` (i32), `si_data_len` (i32), `si_flags` (i32), `size_ptr` (i32).
/// Exactly the arrays of that many integers, each within its type, pass the check.
pub proof fn law_sock_send_arguments(values: Seq<Option<i128>>)
    ensures
        checked_arguments(signature(Method::SockSend), values) is Ok <==> (values.len() == 5
            && holds_i32(values[0])
            && holds_i32(values[1])
            && holds_i32(values[2])
            && holds_i32(values[3])
            && holds_i32(values[4])),
{
    let k = signature(Method::SockSend);
    lemma_checked_ok_iff(k, values);
    if values.len() == 5 {
        assert(values[0] == values[0]);
        assert(values[1] == values[1]);
        assert(values[2] == values[2]);
        assert(values[3] == values[3]);
        assert(values[4] == values[4]);
        if holds_i32(values[0]) && holds_i32(values[1]) && holds_i32(values[2]) && holds_i32(values[3]) && holds_i32(values[4]) {
            assert forall|i: int| 0 <= i < k.len() implies ((#[trigger] values[i]) matches Some(v) && fits_kind(k[i], v as int)) by {
                if i == 0 {
                } else if i == 1 {
                } else if i == 2 {
                } else if i == 3 {
                } else if i == 4 {
                }
            }
        }
    }
}

/// `sock_shutdown` takes 2 arguments: `fd` (i32), `how` (i32).
/// Exactly the arrays of that many integers, each within its type, pass the check.
pub proof fn law_sock_shutdown_arguments(values: Seq<Option<i128>>)
    ensures
        checked_arguments(signature(Method::SockShutdown), values) is Ok <==> (values.len() == 2
            && holds_i32(values[0])
            && holds_i32(values[1])),
{
    let k = signature(Method::SockShutdown);
    lemma_checked_ok_iff(k, values);
    if values.len() == 2 {
        assert(values[0] == values[0]);
        assert(values[1] == values[1]);
        if holds_i32(values[0]) && holds_i32(values[1]) {
            assert forall|i: int| 0 <= i < k.len() implies ((#[trigger] values[i]) matches Some(v) && fits_kind(k[i], v as int)) by {
                if i == 0 {
                } else if i == 1 {
                }
            }
        }
    }
}

} // verus!
