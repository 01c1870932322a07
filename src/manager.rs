use crate::check_method::{check_method_of, method_error, CheckMethod, ConfigError, Verdict};
use crate::configs::{ApplicationConfig, TargetConfig};
use crate::configs::SelfValidation;
use crate::ratio::Ratio;
use crate::stats::{ProbeError, Stats};
use crate::text::Decimal;
use vstd::prelude::*;

verus! {

/// What probing one mount point gave: its statistics, `None` where it has
/// none, or the failure of the call.
pub type ProbeOutcome = Result<Option<Stats>, ProbeError>;

/// A check that went wrong, or found the threshold exceeded.
#[derive(Debug, Clone, PartialEq, Eq)]
pub enum CheckError {
    /// The mount point has no filesystem statistics.
    StatsNotFound(String),
    /// The used share is above the threshold.
    ThresholdExceeded { mount_point: String, current: Ratio, threshold: Decimal },
    /// The statistics call failed.
    Probe(ProbeError),
}

/// A check that passed, with what it found.
#[derive(Debug, Clone, PartialEq, Eq)]
pub struct Passed {
    pub mount_point: String,
    pub current: Ratio,
    pub threshold: Decimal,
}

/// One mount point and the method that judges it.
#[derive(Debug, Clone)]
pub struct CheckManager {
    mount_point: String,
    check_method: CheckMethod,
}

impl CheckManager {
    pub closed spec fn mount_point_spec(&self) -> Seq<char> {
        self.mount_point@
    }

    pub closed spec fn check_method_spec(&self) -> CheckMethod {
        self.check_method
    }

    pub open spec fn wf(&self) -> bool {
        self.check_method_spec().wf()
    }

    /// `r` is the result of checking this mount point given `probe`.
    pub open spec fn check_result(&self, probe: ProbeOutcome, r: Result<Passed, CheckError>) -> bool {
        match probe {
            Err(pe) => r matches Err(CheckError::Probe(e)) && e.mount_point@ == pe.mount_point@
                && e.code == pe.code,
            Ok(None) => r matches Err(CheckError::StatsNotFound(mp)) && mp@ == self.mount_point_spec(),
            Ok(Some(st)) => {
                let t = self.check_method_spec().threshold();
                match r {
                    Ok(p) => {
                        &&& p.mount_point@ == self.mount_point_spec()
                        &&& p.threshold == t
                        &&& p.current == st.use_share_spec()
                        &&& p.current.represents(st.used_spec(), st.size_spec())
                        &&& !t.below(p.current)
                    },
                    Err(CheckError::ThresholdExceeded { mount_point, current, threshold }) => {
                        &&& mount_point@ == self.mount_point_spec()
                        &&& threshold == t
                        &&& current == st.use_share_spec()
                        &&& current.represents(st.used_spec(), st.size_spec())
                        &&& t.below(current)
                    },
                    Err(_) => false,
                }
            },
        }
    }

    pub fn new(mount_point: String, check_method: CheckMethod) -> (r: CheckManager)
        ensures
            r.mount_point_spec() == mount_point@,
            r.check_method_spec() == check_method,
    {
        CheckManager { mount_point, check_method }
    }

    pub fn mount_point(&self) -> (r: &str)
        ensures
            r@ == self.mount_point_spec(),
    {
        self.mount_point.as_str()
    }

    /// Judges the outcome of probing this manager's mount point.
    pub fn check(&self, probe: &ProbeOutcome) -> (r: Result<Passed, CheckError>)
        requires
            self.wf(),
        ensures
            self.check_result(*probe, r),
    {
        match probe {
            Err(pe) => Err(
                CheckError::Probe(ProbeError { mount_point: pe.mount_point.clone(), code: pe.code }),
            ),
            Ok(None) => Err(CheckError::StatsNotFound(self.mount_point.clone())),
            Ok(Some(stats)) => match self.check_method.evaluate(stats) {
                Verdict::Violation { current, threshold } => Err(
                    CheckError::ThresholdExceeded {
                        mount_point: self.mount_point.clone(),
                        current,
                        threshold,
                    },
                ),
                Verdict::Pass { current, threshold } => Ok(
                    Passed { mount_point: self.mount_point.clone(), current, threshold },
                ),
            },
        }
    }
}

/// One sweep: checks every manager, in order, against the probe of its mount point.
pub fn sweep(managers: &Vec<CheckManager>, probes: &Vec<ProbeOutcome>) -> (r: Vec<
    Result<Passed, CheckError>,
>)
    requires
        managers@.len() == probes@.len(),
        forall|i: int| 0 <= i < managers@.len() ==> (#[trigger] managers@[i]).wf(),
    ensures
        r@.len() == managers@.len(),
        forall|i: int|
            0 <= i < r@.len() ==> (#[trigger] managers@[i]).check_result(probes@[i], r@[i]),
{
    let mut r: Vec<Result<Passed, CheckError>> = Vec::new();
    let mut i: usize = 0;
    while i < managers.len()
        invariant
            managers@.len() == probes@.len(),
            forall|k: int| 0 <= k < managers@.len() ==> (#[trigger] managers@[k]).wf(),
            0 <= i <= managers@.len(),
            r@.len() == i,
            forall|k: int| 0 <= k < i ==> (#[trigger] managers@[k]).check_result(probes@[k], r@[k]),
        decreases managers@.len() - i,
    {
        let outcome = managers[i].check(&probes[i]);
        r.push(outcome);
        i = i + 1;
    }
    r
}

/// The mount point that a check's result names.
pub open spec fn reported_mount_point(r: Result<Passed, CheckError>) -> Seq<char> {
    match r {
        Ok(p) => p.mount_point@,
        Err(CheckError::StatsNotFound(mp)) => mp@,
        Err(CheckError::ThresholdExceeded { mount_point, .. }) => mount_point@,
        Err(CheckError::Probe(e)) => e.mount_point@,
    }
}

/// The results of a sweep come in the managers' order: the `i`-th result names the
/// `i`-th manager's mount point, whenever each probe was made on its manager's mount point.
pub proof fn lemma_sweep_keeps_order(
    managers: Seq<CheckManager>,
    probes: Seq<ProbeOutcome>,
    results: Seq<Result<Passed, CheckError>>,
)
    requires
        managers.len() == probes.len(),
        results.len() == managers.len(),
        forall|i: int|
            0 <= i < results.len() ==> (#[trigger] managers[i]).check_result(probes[i], results[i]),
        forall|i: int|
            0 <= i < probes.len() ==> (#[trigger] probes[i] matches Err(e)
                ==> e.mount_point@ == managers[i].mount_point_spec()),
    ensures
        forall|i: int|
            0 <= i < results.len() ==> #[trigger] reported_mount_point(results[i])
                == managers[i].mount_point_spec(),
{
    assert forall|i: int| 0 <= i < results.len() implies #[trigger] reported_mount_point(results[i])
        == managers[i].mount_point_spec() by {
        assert(managers[i].check_result(probes[i], results[i]));
        assert(probes[i] matches Err(e) ==> e.mount_point@ == managers[i].mount_point_spec());
    }
}

/// The managers that a configuration describes, one per target and in the same
/// order, or the error of the first target whose method cannot be built.
pub fn build_managers(config: &ApplicationConfig) -> (r: Result<Vec<CheckManager>, ConfigError>)
    ensures
        r is Ok <==> forall|i: int|
            0 <= i < config.targets@.len() ==> (#[trigger] config.targets@[i]).valid(),
        r matches Ok(ms) ==> {
            &&& ms@.len() == config.targets@.len()
            &&& forall|i: int|
                0 <= i < ms@.len() ==> {
                    let t = #[trigger] config.targets@[i];
                    &&& ms@[i].wf()
                    &&& ms@[i].mount_point_spec() == t.mount_point@
                    &&& check_method_of(t.check_method@, t.threshold@) == Some(
                        ms@[i].check_method_spec(),
                    )
                }
        },
        r matches Err(e) ==> exists|k: int|
            0 <= k < config.targets@.len() && (forall|j: int|
                0 <= j < k ==> (#[trigger] config.targets@[j]).valid()) && !config.targets@[k].valid()
                && method_error(e, config.targets@[k].check_method@, config.targets@[k].threshold@),
{
    let mut ms: Vec<CheckManager> = Vec::new();
    let mut i: usize = 0;
    while i < config.targets.len()
        invariant
            0 <= i <= config.targets@.len(),
            ms@.len() == i,
            forall|k: int| 0 <= k < i ==> (#[trigger] config.targets@[k]).valid(),
            forall|k: int|
                0 <= k < i ==> {
                    let t = #[trigger] config.targets@[k];
                    &&& ms@[k].wf()
                    &&& ms@[k].mount_point_spec() == t.mount_point@
                    &&& check_method_of(t.check_method@, t.threshold@) == Some(
                        ms@[k].check_method_spec(),
                    )
                },
        decreases config.targets@.len() - i,
    {
        let t: &TargetConfig = &config.targets[i];
        match t.get_check_method() {
            Ok(m) => {
                ms.push(CheckManager::new(t.mount_point.clone(), m));
            },
            Err(e) => {
                assert(!config.targets@[i as int].valid());
                return Err(e);
            },
        }
        i = i + 1;
    }
    Ok(ms)
}

} // verus!
