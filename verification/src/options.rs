use vstd::prelude::*;
use vstd::string::StringSliceAdditionalSpecFns;

verus! {

/// A host directory made visible to the guest.
pub struct WvWasiPreopen<'a> {
    /// The path name of the directory on the host file system.
    pub path: &'a str,
    /// The name by which the guest knows the directory.
    pub guest_path: &'a str,
}

/// The options of a new instance.
pub struct WvWasiOptions<'a> {
    /// The directories opened before the guest starts.
    pub preopens: Vec<WvWasiPreopen<'a>>,
}

/// Where a preopened directory goes among an instance's descriptors.
#[derive(Clone, Copy, Debug, PartialEq, Eq, Structural)]
pub enum PreopenPlacement {
    /// It takes the place of the root directory's descriptor.
    ReplaceRoot,
    /// It gets a descriptor of its own.
    Append,
}

/// Where a preopen with guest path `guest_path` goes: a guest path of `/` replaces
/// the root directory, any other gets a descriptor of its own.
pub open spec fn placement_of(guest_path: Seq<u8>) -> PreopenPlacement {
    if guest_path == seq![47u8] {
        PreopenPlacement::ReplaceRoot
    } else {
        PreopenPlacement::Append
    }
}

/// Only the guest path `/` replaces the root directory: every other guest path,
/// one-byte paths such as `.` included, gets a descriptor of its own.
pub proof fn law_only_slash_replaces_root(guest_path: Seq<u8>)
    ensures
        placement_of(guest_path) == PreopenPlacement::ReplaceRoot <==> (guest_path.len() == 1
            && guest_path[0] == 47),
        guest_path.len() != 1 ==> placement_of(guest_path) == PreopenPlacement::Append,
{
    if guest_path.len() == 1 && guest_path[0] == 47 {
        assert(guest_path =~= seq![47u8]);
    }
}

/// Decides where the preopen with guest path `guest_path` goes.
pub fn preopen_placement(guest_path: &str) -> (r: PreopenPlacement)
    ensures
        r == placement_of(guest_path.spec_bytes()),
{
    let b = guest_path.as_bytes();
    if b.len() == 1 && b[0] == 47 {
        assert(b@ =~= seq![47u8]);
        PreopenPlacement::ReplaceRoot
    } else {
        PreopenPlacement::Append
    }
}

/// The preopens of `options` as owned `(guest_path, path)` pairs, in order; none without options.
pub fn owned_preopens(options: Option<WvWasiOptions>) -> (r: Vec<(String, String)>)
    ensures
        options is None ==> r@.len() == 0,
        options matches Some(o) ==> r@.len() == o.preopens@.len() && forall|i: int|
            0 <= i < r@.len() ==> (#[trigger] r@[i]).0@ == o.preopens@[i].guest_path@ && r@[i].1@
                == o.preopens@[i].path@,
{
    let mut r: Vec<(String, String)> = Vec::new();
    match options {
        None => {},
        Some(o) => {
            let n: usize = o.preopens.len();
            let mut i: usize = 0;
            while i < n
                invariant
                    n == o.preopens@.len(),
                    0 <= i <= n,
                    r@.len() == i,
                    forall|k: int|
                        0 <= k < i ==> (#[trigger] r@[k]).0@ == o.preopens@[k].guest_path@
                            && r@[k].1@ == o.preopens@[k].path@,
                decreases n - i,
            {
                let p = &o.preopens[i];
                r.push((p.guest_path.to_owned(), p.path.to_owned()));
                i = i + 1;
            }
        },
    }
    r
}

/// Borrows owned `(guest_path, path)` pairs back as the options of a new instance.
pub fn borrowed_options<'a>(preopens: &'a Vec<(String, String)>) -> (r: WvWasiOptions<'a>)
    ensures
        r.preopens@.len() == preopens@.len(),
        forall|i: int|
            0 <= i < preopens@.len() ==> (#[trigger] r.preopens@[i]).guest_path@ == preopens@[i].0@
                && r.preopens@[i].path@ == preopens@[i].1@,
{
    let mut v: Vec<WvWasiPreopen<'a>> = Vec::new();
    let mut i: usize = 0;
    while i < preopens.len()
        invariant
            0 <= i <= preopens@.len(),
            v@.len() == i,
            forall|k: int|
                0 <= k < i ==> (#[trigger] v@[k]).guest_path@ == preopens@[k].0@ && v@[k].path@
                    == preopens@[k].1@,
        decreases preopens@.len() - i,
    {
        let pair = &preopens[i];
        v.push(WvWasiPreopen { guest_path: pair.0.as_str(), path: pair.1.as_str() });
        i = i + 1;
    }
    WvWasiOptions { preopens: v }
}

} // verus!
