use crate::ratio::Ratio;
use crate::stats::Stats;
use crate::text::{contains, contains_text, decimal_of, lower_of, lowercase, parse_decimal, Decimal};
use vstd::prelude::*;

verus! {

/// A configuration value that cannot be used.
#[derive(Debug, Clone, PartialEq, Eq)]
pub enum ConfigError {
    /// The check method's name, lowercased, selects no method.
    UnexpectedMethod(String),
    /// The threshold text is not a decimal number.
    IllegalThreshold(String),
    /// The poll interval is not a duration.
    IllegalInterval(String),
    /// The logger level is none of the known levels.
    IllegalLoggerLevel(String),
}

/// How a mount point is judged.
#[derive(Debug, Clone, Copy, PartialEq, Eq, Structural)]
pub enum CheckMethod {
    /// Fails when the used share of the capacity exceeds `threshold`.
    DiskCapacityRate { threshold: Decimal },
}

/// The outcome of judging one snapshot.
#[derive(Debug, Clone, Copy, PartialEq, Eq, Structural)]
pub enum Verdict {
    Pass { current: Ratio, threshold: Decimal },
    Violation { current: Ratio, threshold: Decimal },
}

impl Decimal {
    /// The numerator with its sign.
    pub open spec fn signed_num(&self) -> int {
        if self.negative {
            -(self.num as int)
        } else {
            self.num as int
        }
    }

    /// This number is strictly below the share `c`.
    pub open spec fn below(&self, c: Ratio) -> bool {
        self.signed_num() * c.den < c.num * self.den
    }

    /// This number equals the share `c`.
    pub open spec fn equals(&self, c: Ratio) -> bool {
        self.signed_num() * c.den == c.num * self.den
    }

    /// Whether this number is strictly below the share `c`.
    pub fn is_below(&self, c: Ratio) -> (r: bool)
        requires
            self.den > 0,
            c.wf(),
        ensures
            r == self.below(c),
    {
        if self.negative {
            proof {
                let n = self.num as int;
                let cd = c.den as int;
                let cn = c.num as int;
                let d = self.den as int;
                assert((-n * cd < cn * d) <==> (n > 0 || cn > 0)) by (nonlinear_arith)
                    requires
                        n >= 0,
                        cd > 0,
                        cn >= 0,
                        d > 0,
                ;
            }
            self.num > 0 || c.num > 0
        } else {
            proof {
                let m = u64::MAX as int;
                assert((self.num as int) * (c.den as int) <= m * m) by (nonlinear_arith)
                    requires
                        0 <= self.num <= m,
                        0 <= c.den <= m,
                ;
                assert((c.num as int) * (self.den as int) <= m * m) by (nonlinear_arith)
                    requires
                        0 <= c.num <= m,
                        0 <= self.den <= m,
                ;
            }
            (self.num as u128) * (c.den as u128) < (c.num as u128) * (self.den as u128)
        }
    }
}

/// A lowercased method name selects the capacity-rate method: it is empty or
/// holds `capacity_rate` anywhere.
pub open spec fn selects(lowered: Seq<char>) -> bool {
    lowered.len() == 0 || contains(lowered, "capacity_rate"@)
}

/// The method that a lowercased name and a threshold text configure, if any.
pub open spec fn configured(lowered: Seq<char>, threshold: Seq<char>) -> Option<CheckMethod> {
    if selects(lowered) && decimal_of(threshold) is Some {
        Some(CheckMethod::DiskCapacityRate { threshold: decimal_of(threshold)->0 })
    } else {
        None
    }
}

/// `e` is the error reported for a lowercased name and threshold text that
/// configure nothing.
pub open spec fn lowered_error(e: ConfigError, lowered: Seq<char>, threshold: Seq<char>) -> bool {
    match e {
        ConfigError::UnexpectedMethod(m) => !selects(lowered) && m@ == lowered,
        ConfigError::IllegalThreshold(t) => selects(lowered) && decimal_of(threshold) is None
            && t@ == threshold,
        _ => false,
    }
}

/// `r` is what configuring a method from a lowercased name and a threshold text yields.
pub open spec fn lowered_result(
    r: Result<CheckMethod, ConfigError>,
    lowered: Seq<char>,
    threshold: Seq<char>,
) -> bool {
    match r {
        Ok(m) => configured(lowered, threshold) == Some(m),
        Err(e) => configured(lowered, threshold) is None && lowered_error(e, lowered, threshold),
    }
}

/// The method name, whatever its case, selects the capacity-rate method.
pub open spec fn selects_capacity_rate(method: Seq<char>) -> bool {
    selects(lower_of(method))
}

/// The method that a name and a threshold text configure, if any.
pub open spec fn check_method_of(method: Seq<char>, threshold: Seq<char>) -> Option<CheckMethod> {
    configured(lower_of(method), threshold)
}

/// `e` is the error reported for a method name and threshold text that configure nothing.
pub open spec fn method_error(e: ConfigError, method: Seq<char>, threshold: Seq<char>) -> bool {
    lowered_error(e, lower_of(method), threshold)
}

/// `r` is what configuring a method from `method` and `threshold` yields.
pub open spec fn method_result(
    r: Result<CheckMethod, ConfigError>,
    method: Seq<char>,
    threshold: Seq<char>,
) -> bool {
    lowered_result(r, lower_of(method), threshold)
}

impl CheckMethod {
    /// The threshold's denominator is positive.
    pub open spec fn wf(&self) -> bool {
        self.threshold().den > 0
    }

    pub open spec fn threshold(&self) -> Decimal {
        match self {
            CheckMethod::DiskCapacityRate { threshold } => *threshold,
        }
    }

    /// Builds a method from its name, matched without regard to case, and a
    /// threshold text.
    pub fn from(method: &str, threshold: &str) -> (r: Result<CheckMethod, ConfigError>)
        ensures
            method_result(r, method@, threshold@),
            r matches Ok(m) ==> m.wf(),
    {
        CheckMethod::from_lowercase(lowercase(method), threshold)
    }

    /// Builds a method from its name, already lowercased, and a threshold text.
    pub fn from_lowercase(lowered: String, threshold: &str) -> (r: Result<CheckMethod, ConfigError>)
        ensures
            lowered_result(r, lowered@, threshold@),
            r matches Ok(m) ==> m.wf(),
    {
        proof {
            crate::text::lemma_decimal_den_positive(threshold@);
        }
        if lowered.unicode_len() == 0 || contains_text(lowered.as_str(), "capacity_rate") {
            match parse_decimal(threshold) {
                Some(t) => Ok(CheckMethod::DiskCapacityRate { threshold: t }),
                None => Err(ConfigError::IllegalThreshold(threshold.to_owned())),
            }
        } else {
            Err(ConfigError::UnexpectedMethod(lowered))
        }
    }

    /// The verdict `Violation` when the threshold is strictly below the used
    /// share of `stats`, `Pass` otherwise.
    pub fn evaluate(&self, stats: &Stats) -> (r: Verdict)
        requires
            self.wf(),
        ensures
            ({
                let (current, threshold) = match r {
                    Verdict::Pass { current, threshold } => (current, threshold),
                    Verdict::Violation { current, threshold } => (current, threshold),
                };
                &&& current == stats.use_share_spec()
                &&& current.represents(stats.used_spec(), stats.size_spec())
                &&& threshold == self.threshold()
                &&& (r is Violation <==> threshold.below(current))
            }),
    {
        match self {
            CheckMethod::DiskCapacityRate { threshold } => {
                let current = stats.use_share();
                if threshold.is_below(current) {
                    Verdict::Violation { current, threshold: *threshold }
                } else {
                    Verdict::Pass { current, threshold: *threshold }
                }
            },
        }
    }
}

/// A threshold equal to the current share is no violation.
pub proof fn lemma_equal_share_is_ok(t: Decimal, c: Ratio)
    requires
        t.equals(c),
    ensures
        !t.below(c),
{
}

/// Whether a method is chosen depends on the method name only through its
/// lowercase form.
pub proof fn lemma_method_case_insensitive(m1: Seq<char>, m2: Seq<char>, threshold: Seq<char>)
    requires
        lower_of(m1) == lower_of(m2),
    ensures
        check_method_of(m1, threshold) == check_method_of(m2, threshold),
        selects_capacity_rate(m1) == selects_capacity_rate(m2),
{
}

} // verus!
