//! Deciding whether results are stale against their sources.
//!
//! A result is regenerated when at least one source file is newer than
//! the oldest result file. Files are represented by their modification
//! times in nanoseconds, `None` for a file that does not exist; reading
//! the times from disk is the caller's concern.

use vstd::prelude::*;

verus! {

/// A source file was missing, so its modification time could not be
/// read.
#[derive(Debug, Clone, Copy, PartialEq, Eq, Structural)]
pub enum ModificationError {
    MissingFile,
}

/// Whether any file in the list is missing.
pub open spec fn spec_any_missing(xs: Seq<Option<u128>>) -> bool {
    exists|i: int| 0 <= i < xs.len() && xs[i] is None
}

/// The smallest modification time in the list, starting from the
/// largest representable time for an empty list.
pub open spec fn spec_min_time(xs: Seq<Option<u128>>) -> u128
    decreases xs.len(),
{
    if xs.len() == 0 {
        u128::MAX
    } else {
        let rest = spec_min_time(xs.drop_first());
        if xs[0] is Some && xs[0].unwrap() < rest {
            xs[0].unwrap()
        } else {
            rest
        }
    }
}

/// The largest modification time in the list, starting from zero for an
/// empty list.
pub open spec fn spec_max_time(xs: Seq<Option<u128>>) -> u128
    decreases xs.len(),
{
    if xs.len() == 0 {
        0
    } else {
        let rest = spec_max_time(xs.drop_first());
        if xs[0] is Some && xs[0].unwrap() > rest {
            xs[0].unwrap()
        } else {
            rest
        }
    }
}

/// The earliest modification time of the given files, or zero as soon
/// as any file is missing: a missing result always counts as stale.
pub fn min_duration(paths: &Vec<Option<u128>>) -> (r: u128)
    ensures
        spec_any_missing(paths@) ==> r == 0,
        !spec_any_missing(paths@) ==> r == spec_min_time(paths@),
{
    let n = paths.len();
    let mut acc: u128 = u128::MAX;
    let mut i: usize = n;
    while i > 0
        invariant
            0 <= i <= n,
            n == paths@.len(),
            !spec_any_missing(paths@.skip(i as int)),
            acc == spec_min_time(paths@.skip(i as int)),
        decreases i,
    {
        i -= 1;
        proof {
            assert(paths@.skip(i as int).drop_first() =~= paths@.skip(i + 1));
            assert(paths@.skip(i as int)[0] == paths@[i as int]);
        }
        match paths[i] {
            Option::Some(time) => {
                if time < acc {
                    acc = time;
                }
                proof {
                    assert forall|t: int|
                        0 <= t < paths@.skip(i as int).len() implies !(paths@.skip(i as int)[t]
                        is None) by {
                        if t >= 1 {
                            assert(paths@.skip(i as int)[t] == paths@.skip(i + 1)[t - 1]);
                        }
                    }
                }
            },
            Option::None => {
                proof {
                    let ghost w = i as int;
                    assert(0 <= w < paths@.len() && paths@[w] is None);
                }
                return 0;
            },
        }
    }
    proof {
        assert(paths@.skip(0) =~= paths@);
        if spec_any_missing(paths@) {
            let w = choose|t: int| 0 <= t < paths@.len() && paths@[t] is None;
            assert(paths@.skip(0)[w] == paths@[w]);
        }
    }
    acc
}

/// The latest modification time of the given files; a missing source
/// file is an error.
pub fn max_duration(paths: &Vec<Option<u128>>) -> (r: Result<u128, ModificationError>)
    ensures
        match r {
            Result::Ok(t) => !spec_any_missing(paths@) && t == spec_max_time(paths@),
            Result::Err(e) => spec_any_missing(paths@) && e == ModificationError::MissingFile,
        },
{
    let n = paths.len();
    let mut acc: u128 = 0;
    let mut i: usize = n;
    while i > 0
        invariant
            0 <= i <= n,
            n == paths@.len(),
            !spec_any_missing(paths@.skip(i as int)),
            acc == spec_max_time(paths@.skip(i as int)),
        decreases i,
    {
        i -= 1;
        proof {
            assert(paths@.skip(i as int).drop_first() =~= paths@.skip(i + 1));
            assert(paths@.skip(i as int)[0] == paths@[i as int]);
        }
        match paths[i] {
            Option::Some(time) => {
                if time > acc {
                    acc = time;
                }
                proof {
                    assert forall|t: int|
                        0 <= t < paths@.skip(i as int).len() implies !(paths@.skip(i as int)[t]
                        is None) by {
                        if t >= 1 {
                            assert(paths@.skip(i as int)[t] == paths@.skip(i + 1)[t - 1]);
                        }
                    }
                }
            },
            Option::None => {
                proof {
                    let ghost w = i as int;
                    assert(0 <= w < paths@.len() && paths@[w] is None);
                }
                return Err(ModificationError::MissingFile);
            },
        }
    }
    proof {
        assert(paths@.skip(0) =~= paths@);
    }
    Ok(acc)
}

/// Whether at least one source is newer than the oldest result, so the
/// result must be regenerated. A missing result counts as infinitely
/// old; a missing source is an error.
pub fn was_modified(sources: &Vec<Option<u128>>, results: &Vec<Option<u128>>) -> (r: Result<
    bool,
    ModificationError,
>)
    ensures
        match r {
            Result::Ok(b) => !spec_any_missing(sources@) && b == ((if spec_any_missing(results@) {
                0u128
            } else {
                spec_min_time(results@)
            }) <= spec_max_time(sources@)),
            Result::Err(e) => spec_any_missing(sources@) && e == ModificationError::MissingFile,
        },
{
    let min_time = min_duration(results);
    let max_time = match max_duration(sources) {
        Ok(t) => t,
        Err(e) => {
            return Err(e);
        },
    };
    Ok(min_time <= max_time)
}

} // verus!
