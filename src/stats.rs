use crate::ratio::Ratio;
use vstd::prelude::*;

verus! {

/// A snapshot of one filesystem's block and inode counts, as the OS reports them.
#[derive(Debug, Clone, Copy, PartialEq, Eq, Structural)]
pub struct Stats {
    pub bsize: u64,
    pub blocks: u64,
    pub bfree: u64,
    pub bavail: u64,
    pub files: u64,
    pub ffree: u64,
    pub favail: u64,
}

/// The probe call failed with a code other than success or the "not found" sentinel.
#[derive(Debug, Clone, PartialEq, Eq)]
pub struct ProbeError {
    pub mount_point: String,
    pub code: i32,
}

/// Return code of a successful statistics call.
pub const PROBE_OK: i32 = 0;

/// Return code that means "no statistics for this path".
pub const PROBE_NOT_FOUND: i32 = -1;

proof fn lemma_mul_le(a: int, b: int, c: int)
    requires
        0 <= a,
        0 <= b <= c,
    ensures
        a * b <= a * c,
{
    assert(a * b <= a * c) by (nonlinear_arith)
        requires
            0 <= a,
            0 <= b <= c,
    ;
}

impl Stats {
    /// Total capacity in bytes.
    pub open spec fn size_spec(&self) -> int {
        self.bsize * self.blocks
    }

    /// Bytes available to unprivileged users.
    pub open spec fn available_spec(&self) -> int {
        self.bsize * self.bavail
    }

    /// Bytes in use; zero when the OS reports more available than total.
    pub open spec fn used_spec(&self) -> int {
        if self.available_spec() <= self.size_spec() {
            self.size_spec() - self.available_spec()
        } else {
            0
        }
    }

    /// Inodes in use; zero when the OS reports more available than total.
    pub open spec fn inodes_used_spec(&self) -> int {
        if self.favail <= self.files {
            self.files - self.favail
        } else {
            0
        }
    }

    /// The share of the capacity in use, as blocks in use over blocks.
    pub open spec fn use_share_spec(&self) -> Ratio {
        if self.bsize == 0 || self.blocks == 0 || self.bavail > self.blocks {
            Ratio { num: 0, den: 1 }
        } else {
            Ratio { num: (self.blocks - self.bavail) as u64, den: self.blocks }
        }
    }

    /// The share of the inodes in use.
    pub open spec fn inodes_use_share_spec(&self) -> Ratio {
        if self.files == 0 {
            Ratio { num: 0, den: 1 }
        } else {
            Ratio { num: self.inodes_used_spec() as u64, den: self.files }
        }
    }

    /// Classifies the outcome of the statistics call on `mount_point`: `raw` holds
    /// the counts the call filled in, `code` its return value.
    pub fn from(mount_point: &str, code: i32, raw: Stats) -> (r: Result<Option<Stats>, ProbeError>)
        ensures
            code == PROBE_OK ==> r == Ok::<Option<Stats>, ProbeError>(Some(raw)),
            code == PROBE_NOT_FOUND ==> r == Ok::<Option<Stats>, ProbeError>(None),
            code != PROBE_OK && code != PROBE_NOT_FOUND ==> (r matches Err(e) && e.mount_point@
                == mount_point@ && e.code == code),
    {
        if code == PROBE_OK {
            Ok(Some(raw))
        } else if code == PROBE_NOT_FOUND {
            Ok(None)
        } else {
            Err(ProbeError { mount_point: mount_point.to_owned(), code })
        }
    }

    pub fn size(&self) -> (r: u64)
        requires
            self.size_spec() <= u64::MAX,
        ensures
            r == self.size_spec(),
    {
        self.bsize * self.blocks
    }

    pub fn available(&self) -> (r: u64)
        requires
            self.available_spec() <= u64::MAX,
        ensures
            r == self.available_spec(),
    {
        self.bsize * self.bavail
    }

    pub fn used(&self) -> (r: u64)
        requires
            self.size_spec() <= u64::MAX,
        ensures
            r == self.used_spec(),
    {
        if self.bavail <= self.blocks {
            proof {
                lemma_mul_le(self.bsize as int, self.bavail as int, self.blocks as int);
            }
            self.size() - self.bsize * self.bavail
        } else {
            proof {
                lemma_mul_le(self.bsize as int, self.blocks as int, self.bavail as int);
            }
            0
        }
    }

    pub fn inodes_used(&self) -> (r: u64)
        ensures
            r == self.inodes_used_spec(),
    {
        if self.favail <= self.files {
            self.files - self.favail
        } else {
            0
        }
    }

    /// Share of the inodes in use: `inodes_used / files`, zero when `files == 0`.
    pub fn inodes_use_share(&self) -> (r: Ratio)
        ensures
            r == self.inodes_use_share_spec(),
            r.represents(self.inodes_used_spec(), self.files as int),
            r.num <= r.den,
    {
        if self.files == 0 {
            Ratio::zero()
        } else {
            Ratio { num: self.inodes_used(), den: self.files }
        }
    }

    /// Share of the capacity in use: `used / size`, zero when `size == 0`.
    /// Computed on block counts, so it is exact even where `size` exceeds `u64`.
    pub fn use_share(&self) -> (r: Ratio)
        ensures
            r == self.use_share_spec(),
            r.represents(self.used_spec(), self.size_spec()),
            r.num <= r.den,
    {
        if self.bsize == 0 || self.blocks == 0 {
            proof {
                assert(self.size_spec() == 0) by (nonlinear_arith)
                    requires
                        self.bsize == 0 || self.blocks == 0,
                ;
            }
            Ratio::zero()
        } else if self.bavail <= self.blocks {
            let r = Ratio { num: self.blocks - self.bavail, den: self.blocks };
            proof {
                let b = self.bsize as int;
                let n = self.blocks as int;
                let a = self.bavail as int;
                lemma_mul_le(b, a, n);
                assert(b * n > 0) by (nonlinear_arith)
                    requires
                        b > 0,
                        n > 0,
                ;
                assert((n - a) * (b * n) == (b * n - b * a) * n) by (nonlinear_arith);
            }
            r
        } else {
            proof {
                let b = self.bsize as int;
                assert(b * self.blocks < b * self.bavail) by (nonlinear_arith)
                    requires
                        b > 0,
                        self.blocks < self.bavail,
                ;
                assert(b * self.blocks > 0) by (nonlinear_arith)
                    requires
                        b > 0,
                        self.blocks > 0,
                ;
            }
            Ratio::zero()
        }
    }
}

/// A volume of size zero has the used share zero.
pub proof fn lemma_empty_volume_share_is_zero(s: Stats)
    requires
        s.size_spec() == 0,
    ensures
        s.use_share_spec().num == 0,
        s.use_share_spec().represents(s.used_spec(), s.size_spec()),
{
    assert(s.bsize == 0 || s.blocks == 0) by (nonlinear_arith)
        requires
            s.bsize * s.blocks == 0,
    ;
}

/// A volume without inodes has the inode share zero.
pub proof fn lemma_no_inodes_share_is_zero(s: Stats)
    requires
        s.files == 0,
    ensures
        s.inodes_use_share_spec().num == 0,
        s.inodes_use_share_spec().represents(s.inodes_used_spec(), s.files as int),
{
}

} // verus!
