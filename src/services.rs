//! Managed services: their descriptors, the decision taken at start-up to
//! bring a service in line with the desired state, and the escalating
//! recovery protocol run when starting a service fails.
//!
//! The protocol is a state machine. The caller performs each call that it
//! asks for (through systemctl, pkill or a sleep) and hands back the outcome.

use vstd::prelude::*;
use crate::system_state::texts;
use crate::text::same_text;

verus! {

/// How long the cooldown after force-termination lasts, in milliseconds.
pub const RECOVERY_COOLDOWN_MS: u64 = 2000;

/// A managed service: its unit name, the pattern that matches its processes
/// (for force-termination), and whether recovery may be tried.
#[derive(Debug)]
pub struct ServiceConfig {
    pub service_name: String,
    pub process_name: Option<String>,
    pub recovery_enabled: bool,
}

/// What a `ServiceConfig` holds, as mathematical values.
pub struct ServiceConfigView {
    pub service_name: Seq<char>,
    pub process_name: Option<Seq<char>>,
    pub recovery_enabled: bool,
}

impl View for ServiceConfig {
    type V = ServiceConfigView;

    open spec fn view(&self) -> ServiceConfigView {
        ServiceConfigView {
            service_name: self.service_name@,
            process_name: match self.process_name {
                Some(p) => Some(p@),
                None => None,
            },
            recovery_enabled: self.recovery_enabled,
        }
    }
}

/// The descriptor of a service known by the short name `name`, if any.
pub open spec fn descriptor(name: Seq<char>) -> Option<ServiceConfigView> {
    if name == "ollama"@ {
        Some(ServiceConfigView {
            service_name: "ollama.service"@,
            process_name: Some("ollama"@),
            recovery_enabled: true,
        })
    } else if name == "comfy-unsafe"@ {
        Some(ServiceConfigView {
            service_name: "comfy-unsafe.service"@,
            process_name: Some("comfy-unsafe"@),
            recovery_enabled: true,
        })
    } else if name == "comfy-safe"@ {
        Some(ServiceConfigView {
            service_name: "comfy-safe.service"@,
            process_name: Some("comfy-safe"@),
            recovery_enabled: true,
        })
    } else {
        None
    }
}

impl ServiceConfig {
    pub fn ollama() -> (r: Self)
        ensures
            r@ == descriptor("ollama"@).unwrap(),
    {
        ServiceConfig {
            service_name: "ollama.service".to_owned(),
            process_name: Some("ollama".to_owned()),
            recovery_enabled: true,
        }
    }

    pub fn comfy_unsafe() -> (r: Self)
        ensures
            r@ == descriptor("comfy-unsafe"@).unwrap(),
    {
        proof {
            reveal_strlit("ollama");
            reveal_strlit("comfy-unsafe");
            assert("comfy-unsafe"@.len() != "ollama"@.len());
        }
        ServiceConfig {
            service_name: "comfy-unsafe.service".to_owned(),
            process_name: Some("comfy-unsafe".to_owned()),
            recovery_enabled: true,
        }
    }

    pub fn comfy_safe() -> (r: Self)
        ensures
            r@ == descriptor("comfy-safe"@).unwrap(),
    {
        proof {
            reveal_strlit("ollama");
            reveal_strlit("comfy-unsafe");
            reveal_strlit("comfy-safe");
            assert("comfy-safe"@.len() != "ollama"@.len());
            assert("comfy-safe"@.len() != "comfy-unsafe"@.len());
        }
        ServiceConfig {
            service_name: "comfy-safe.service".to_owned(),
            process_name: Some("comfy-safe".to_owned()),
            recovery_enabled: true,
        }
    }

    /// The descriptor of the service known by the short name `name`; `None`
    /// for an unknown service.
    pub fn from_name(name: &str) -> (r: Option<Self>)
        ensures
            r matches Some(c) ==> descriptor(name@) == Some(c@),
            r is None ==> descriptor(name@) is None,
    {
        if same_text(name, "ollama") {
            Some(Self::ollama())
        } else if same_text(name, "comfy-unsafe") {
            Some(Self::comfy_unsafe())
        } else if same_text(name, "comfy-safe") {
            Some(Self::comfy_safe())
        } else {
            None
        }
    }
}

/// The calls into the process control interface that the protocol asks for.
#[derive(Clone, Copy, Debug, PartialEq, Eq, Structural)]
pub enum ServiceCall {
    /// Start the service.
    Start,
    /// Stop the service.
    Stop,
    /// Kill the processes that match the service's process pattern; finding
    /// none counts as success.
    ForceTerminate,
    /// Wait for the system to reap what was killed.
    Cooldown,
    /// Reload the service manager's unit definitions.
    ReloadManager,
    /// Restart the service.
    Restart,
}

/// How far the start of a service has come.
#[derive(Clone, Copy, Debug, PartialEq, Eq, Structural)]
pub enum Stage {
    /// The plain start was asked for.
    Primary,
    /// Recovery, first step: force-termination was asked for.
    Terminating,
    /// Recovery, first step: the cooldown was asked for.
    CoolingDown,
    /// Recovery, first step: the start was retried.
    Retrying,
    /// Recovery, second step: the service manager reload was asked for.
    Reloading,
    /// Recovery, second step: the restart was asked for.
    Restarting,
    /// Nothing more to do.
    Finished,
}

/// What comes after an outcome: another call, or the end.
#[derive(Clone, Copy, Debug, PartialEq, Eq, Structural)]
pub enum Progress {
    Next(ServiceCall),
    /// The service runs; `recovered` tells whether recovery was needed.
    Succeeded { recovered: bool },
    Failed,
}

/// The stage and call that begin recovery.
pub open spec fn recovery_start(has_pattern: bool) -> (Stage, Progress) {
    if has_pattern {
        (Stage::Terminating, Progress::Next(ServiceCall::ForceTerminate))
    } else {
        (Stage::CoolingDown, Progress::Next(ServiceCall::Cooldown))
    }
}

/// One step of the start protocol: the outcome `ok` of the call made in
/// `stage` leads to the next stage and what to do next.
pub open spec fn advance(stage: Stage, enabled: bool, has_pattern: bool, ok: bool) -> (Stage, Progress) {
    match stage {
        Stage::Primary => if ok {
            (Stage::Finished, Progress::Succeeded { recovered: false })
        } else if !enabled {
            (Stage::Finished, Progress::Failed)
        } else {
            recovery_start(has_pattern)
        },
        Stage::Terminating => (Stage::CoolingDown, Progress::Next(ServiceCall::Cooldown)),
        Stage::CoolingDown => (Stage::Retrying, Progress::Next(ServiceCall::Start)),
        Stage::Retrying => if ok {
            (Stage::Finished, Progress::Succeeded { recovered: true })
        } else {
            (Stage::Reloading, Progress::Next(ServiceCall::ReloadManager))
        },
        Stage::Reloading => (Stage::Restarting, Progress::Next(ServiceCall::Restart)),
        Stage::Restarting => if ok {
            (Stage::Finished, Progress::Succeeded { recovered: true })
        } else {
            (Stage::Finished, Progress::Failed)
        },
        Stage::Finished => (Stage::Finished, Progress::Failed),
    }
}

/// The calls made after `stage` when the calls have the outcomes `oks`, in
/// order, up to the end of the protocol.
pub open spec fn calls_after(stage: Stage, enabled: bool, has_pattern: bool, oks: Seq<bool>) -> Seq<ServiceCall>
    decreases oks.len(),
{
    if oks.len() == 0 || stage == Stage::Finished {
        seq![]
    } else {
        let (s, p) = advance(stage, enabled, has_pattern, oks[0]);
        match p {
            Progress::Next(c) => seq![c] + calls_after(s, enabled, has_pattern, oks.drop_first()),
            _ => seq![],
        }
    }
}

/// What the protocol ends with after the outcomes `oks`; `None` while it
/// still waits for an outcome.
pub open spec fn verdict_after(stage: Stage, enabled: bool, has_pattern: bool, oks: Seq<bool>) -> Option<Progress>
    decreases oks.len(),
{
    if oks.len() == 0 || stage == Stage::Finished {
        None
    } else {
        let (s, p) = advance(stage, enabled, has_pattern, oks[0]);
        match p {
            Progress::Next(_) => verdict_after(s, enabled, has_pattern, oks.drop_first()),
            _ => Some(p),
        }
    }
}

/// `ds` joined with "; " between entries.
pub open spec fn joined(ds: Seq<Seq<char>>) -> Seq<char>
    decreases ds.len(),
{
    if ds.len() == 0 {
        seq![]
    } else if ds.len() == 1 {
        ds[0]
    } else {
        joined(ds.drop_last()) + "; "@ + ds.last()
    }
}

/// The text of a start that failed after recovery was tried.
pub open spec fn exhausted_text(service_name: Seq<char>, ds: Seq<Seq<char>>) -> Seq<char> {
    "All "@ + service_name + " service recovery attempts failed: "@ + joined(ds)
}

/// The start of one service, with the escalating recovery protocol: after a
/// failed start, kill the service's processes, wait, and start again; if that
/// fails, reload the service manager and restart the service. The first
/// success ends it. Every failure's diagnostic text is kept.
pub struct ServiceStart {
    pub service_name: String,
    pub recovery_enabled: bool,
    pub has_pattern: bool,
    pub stage: Stage,
    pub diagnostics: Vec<String>,
}

impl ServiceStart {
    /// Begins with a plain start of the service.
    pub fn begin(config: &ServiceConfig) -> (r: (Self, ServiceCall))
        ensures
            r.0.service_name@ == config@.service_name,
            r.0.recovery_enabled == config.recovery_enabled,
            r.0.has_pattern == config.process_name is Some,
            r.0.stage == Stage::Primary,
            r.0.diagnostics@.len() == 0,
            r.1 == ServiceCall::Start,
    {
        let m = ServiceStart {
            service_name: config.service_name.clone(),
            recovery_enabled: config.recovery_enabled,
            has_pattern: config.process_name.is_some(),
            stage: Stage::Primary,
            diagnostics: Vec::new(),
        };
        (m, ServiceCall::Start)
    }

    /// Begins with the recovery protocol alone, for a start that already
    /// failed.
    pub fn begin_recovery(config: &ServiceConfig) -> (r: (Self, ServiceCall))
        ensures
            r.0.service_name@ == config@.service_name,
            r.0.recovery_enabled,
            r.0.has_pattern == config.process_name is Some,
            (r.0.stage, Progress::Next(r.1)) == recovery_start(config.process_name is Some),
            r.0.diagnostics@.len() == 0,
    {
        let has_pattern = config.process_name.is_some();
        let (stage, call) = if has_pattern {
            (Stage::Terminating, ServiceCall::ForceTerminate)
        } else {
            (Stage::CoolingDown, ServiceCall::Cooldown)
        };
        let m = ServiceStart {
            service_name: config.service_name.clone(),
            recovery_enabled: true,
            has_pattern,
            stage,
            diagnostics: Vec::new(),
        };
        (m, call)
    }

    /// Takes the outcome of the call last asked for and says what comes next.
    /// A failure's diagnostic text is kept.
    pub fn advance(&mut self, outcome: Result<(), String>) -> (r: Progress)
        requires
            old(self).stage != Stage::Finished,
        ensures
            (final(self).stage, r) == advance(
                old(self).stage,
                old(self).recovery_enabled,
                old(self).has_pattern,
                outcome is Ok,
            ),
            final(self).service_name == old(self).service_name,
            final(self).recovery_enabled == old(self).recovery_enabled,
            final(self).has_pattern == old(self).has_pattern,
            texts(final(self).diagnostics@) == match outcome {
                Ok(_) => texts(old(self).diagnostics@),
                Err(d) => texts(old(self).diagnostics@).push(d@),
            },
    {
        let ok = outcome.is_ok();
        match outcome {
            Ok(_) => {},
            Err(d) => {
                let ghost before = texts(self.diagnostics@);
                self.diagnostics.push(d);
                assert(texts(self.diagnostics@) =~= before.push(d@));
            },
        }
        let (stage, progress) = match self.stage {
            Stage::Primary => if ok {
                (Stage::Finished, Progress::Succeeded { recovered: false })
            } else if !self.recovery_enabled {
                (Stage::Finished, Progress::Failed)
            } else if self.has_pattern {
                (Stage::Terminating, Progress::Next(ServiceCall::ForceTerminate))
            } else {
                (Stage::CoolingDown, Progress::Next(ServiceCall::Cooldown))
            },
            Stage::Terminating => (Stage::CoolingDown, Progress::Next(ServiceCall::Cooldown)),
            Stage::CoolingDown => (Stage::Retrying, Progress::Next(ServiceCall::Start)),
            Stage::Retrying => if ok {
                (Stage::Finished, Progress::Succeeded { recovered: true })
            } else {
                (Stage::Reloading, Progress::Next(ServiceCall::ReloadManager))
            },
            Stage::Reloading => (Stage::Restarting, Progress::Next(ServiceCall::Restart)),
            Stage::Restarting => if ok {
                (Stage::Finished, Progress::Succeeded { recovered: true })
            } else {
                (Stage::Finished, Progress::Failed)
            },
            Stage::Finished => (Stage::Finished, Progress::Failed),
        };
        self.stage = stage;
        progress
    }

    /// The diagnostic text of a failed start: the start's own diagnostic when
    /// no recovery was tried, else a summary naming the service with every
    /// diagnostic gathered on the way.
    pub fn failure_text(&self) -> (r: String)
        ensures
            r@ == if !self.recovery_enabled && self.diagnostics@.len() > 0 {
                self.diagnostics@[0]@
            } else {
                exhausted_text(self.service_name@, texts(self.diagnostics@))
            },
    {
        if !self.recovery_enabled && self.diagnostics.len() > 0 {
            return self.diagnostics[0].clone();
        }
        let mut r = "All ".to_owned();
        r.append(self.service_name.as_str());
        r.append(" service recovery attempts failed: ");
        let mut i: usize = 0;
        while i < self.diagnostics.len()
            invariant
                i <= self.diagnostics.len(),
                r@ == "All "@ + self.service_name@ + " service recovery attempts failed: "@
                    + joined(texts(self.diagnostics@).subrange(0, i as int)),
            decreases self.diagnostics.len() - i,
        {
            let ghost ds = texts(self.diagnostics@);
            proof {
                assert(ds.subrange(0, i + 1).drop_last() =~= ds.subrange(0, i as int));
            }
            if i > 0 {
                r.append("; ");
            }
            r.append(self.diagnostics[i].as_str());
            proof {
                if i == 0 {
                    assert(ds.subrange(0, 1) =~= seq![ds[0]]);
                    assert(joined(ds.subrange(0, 0)) =~= Seq::<char>::empty());
                }
            }
            i = i + 1;
        }
        proof {
            assert(texts(self.diagnostics@).subrange(0, self.diagnostics@.len() as int) =~= texts(self.diagnostics@));
        }
        r
    }
}

/// What start-up should do to bring a service in line with the state the
/// server starts in: nothing when its state could not be read or already
/// matches, else start or stop it.
pub fn initial_sync(observed: Option<bool>, desired: bool) -> (r: Option<ServiceCall>)
    ensures
        r == match observed {
            Some(active) => if active != desired {
                Some(if desired { ServiceCall::Start } else { ServiceCall::Stop })
            } else {
                None
            },
            None => None,
        },
{
    match observed {
        Some(active) => if active != desired {
            if desired {
                Some(ServiceCall::Start)
            } else {
                Some(ServiceCall::Stop)
            }
        } else {
            None
        },
        None => None,
    }
}

/// The calls of a full escalation, in order, after a failed start.
pub open spec fn escalation_calls(has_pattern: bool) -> Seq<ServiceCall> {
    (if has_pattern { seq![ServiceCall::ForceTerminate] } else { seq![] }) + seq![
        ServiceCall::Cooldown,
        ServiceCall::Start,
        ServiceCall::ReloadManager,
        ServiceCall::Restart,
    ]
}

pub open spec fn is_prefix<A>(a: Seq<A>, b: Seq<A>) -> bool {
    a.len() <= b.len() && a == b.subrange(0, a.len() as int)
}

/// Whatever the outcomes, the calls made after the plain start are the
/// escalation's calls in their order, stopped early at the first success.
pub proof fn lemma_escalation_order(has_pattern: bool, oks: Seq<bool>)
    ensures
        is_prefix(calls_after(Stage::Primary, true, has_pattern, oks), escalation_calls(has_pattern)),
{
    reveal_with_fuel(calls_after, 7);
    let cs = calls_after(Stage::Primary, true, has_pattern, oks);
    let full = escalation_calls(has_pattern);
    assert(cs =~= full.subrange(0, cs.len() as int));
}

/// Force-termination comes before any reload of the service manager.
pub proof fn lemma_terminate_before_reload(oks: Seq<bool>)
    ensures
        forall|i: int| 0 <= i < calls_after(Stage::Primary, true, true, oks).len()
            && #[trigger] calls_after(Stage::Primary, true, true, oks)[i] == ServiceCall::ReloadManager
            ==> exists|j: int| 0 <= j < i && calls_after(Stage::Primary, true, true, oks)[j]
                == ServiceCall::ForceTerminate,
{
    lemma_escalation_order(true, oks);
    let cs = calls_after(Stage::Primary, true, true, oks);
    let full = escalation_calls(true);
    assert forall|i: int| 0 <= i < cs.len() && #[trigger] cs[i] == ServiceCall::ReloadManager
        implies exists|j: int| 0 <= j < i && cs[j] == ServiceCall::ForceTerminate by {
        assert(cs[i] == full[i]);
        assert(cs[0] == full[0]);
    }
}

/// When the plain start fails and the start retried after force-termination
/// succeeds, the protocol ends in success and never reloads the service
/// manager or restarts the service.
pub proof fn lemma_retry_success_ends(has_pattern: bool, oks: Seq<bool>)
    requires
        oks.len() >= if has_pattern { 4int } else { 3int },
        !oks[0],
        oks[if has_pattern { 3int } else { 2int }],
    ensures
        verdict_after(Stage::Primary, true, has_pattern, oks) == Some(Progress::Succeeded { recovered: true }),
        !calls_after(Stage::Primary, true, has_pattern, oks).contains(ServiceCall::ReloadManager),
        !calls_after(Stage::Primary, true, has_pattern, oks).contains(ServiceCall::Restart),
{
    reveal_with_fuel(calls_after, 7);
    reveal_with_fuel(verdict_after, 7);
    let cs = calls_after(Stage::Primary, true, has_pattern, oks);
    if has_pattern {
        assert(cs =~= seq![ServiceCall::ForceTerminate, ServiceCall::Cooldown, ServiceCall::Start]);
    } else {
        assert(cs =~= seq![ServiceCall::Cooldown, ServiceCall::Start]);
    }
}

} // verus!
