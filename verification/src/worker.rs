//! The per-container worker, written as a state machine: each call
//! decides the next step of the audit and tells the driver what
//! outside work to perform (start the environment, execute a command,
//! fetch a lifecycle record, stop the environment). The driver hands
//! the outcome back and the worker takes the next decision. One bad
//! application is skipped with a diagnostic; the container's other
//! applications are still processed, and the environment is released
//! on every path.

use vstd::prelude::*;
use vstd::pervasive::unreached;

use crate::application;
use crate::application::{version_capture_of, Application};
use crate::container;
use crate::container::Container;
use crate::end_of_life::{
    date_text,
    first_match_of,
    resolve_response,
    Cycle,
    EolConfig,
    Resolution,
};
use crate::end_of_life::cache::CycleCache;
use crate::name_map::spec_get;
use crate::text::{names_sorted, sort_strings};
use crate::ApplicationMap;

verus! {

/// Where a worker stands.
pub enum Phase {
    /// Created; the environment has not been requested yet.
    Ready,
    /// The environment was requested; awaiting `started`.
    Launching,
    /// Between applications; awaiting `proceed`.
    Iterating,
    /// A command was issued for one application; awaiting `output`.
    Executing { app_name: String, pattern: String, command: String, eol: Option<EolConfig> },
    /// A lifecycle lookup was requested; awaiting `fetched`.
    Fetching { app_name: String, version: String, product: String, canonical: String },
    /// The environment's release was requested; awaiting `stopped`.
    Stopping,
    /// Finished; the status record can be taken.
    Done,
}

/// Operator-facing context for a skipped application.
pub enum Diagnostic {
    /// The application name is not defined in the application mapping;
    /// the operator should look for a typo.
    MissingApplication { container: String, application: String },
    /// The extraction pattern did not match the command output; the
    /// exact command, pattern and raw output reproduce the failure.
    ExtractionFailed {
        container: String,
        application: String,
        command: String,
        pattern: String,
        output: String,
    },
}

/// What the driver must do next.
pub enum WorkerAction {
    /// Start an ephemeral environment for `image` under `name`, then
    /// call `started` with whether it came up.
    Start { name: String, image: String },
    /// Execute `command` inside the environment, then call `output`
    /// with the raw text it printed.
    Execute { name: String, command: String },
    /// Look `product`/`version` up with the lifecycle service, then
    /// call `fetched` with the parsed record, or `None` on any failure.
    Fetch { product: String, version: String },
    /// Report the diagnostic to the operator, then call `proceed`.
    Skip(Diagnostic),
    /// Stop the environment (and remove the image when asked), then
    /// call `stopped`.
    Stop { name: String, remove: bool },
    /// The worker is done; take its status with `into_status`.
    Finished,
}

/// The per-container worker.
pub struct Worker {
    /// The container's configured name; also the instance name the
    /// environment runs under.
    pub name: String,
    /// The image the environment is created from.
    pub image: String,
    /// Whether to remove the image when stopping.
    pub remove: bool,
    /// The applications to process, sorted by name.
    pub apps: Vec<String>,
    /// How many of `apps` have been taken up.
    pub idx: usize,
    /// The status record accumulated so far.
    pub status: container::Status,
    pub phase: Phase,
}

/// The fields no step between starting and stopping ever changes.
pub open spec fn advance_frame(pre: Worker, post: Worker) -> bool {
    &&& post.name == pre.name
    &&& post.image == pre.image
    &&& post.remove == pre.remove
    &&& post.apps == pre.apps
}

/// A copied lookup configuration carries the same product and pattern.
pub open spec fn eol_config_like(a: Option<EolConfig>, b: Option<EolConfig>) -> bool {
    match (a, b) {
        (Option::None, Option::None) => true,
        (Option::Some(x), Option::Some(y)) => x.product_name@ == y.product_name@
            && x.version_pattern@ == y.version_pattern@,
        _ => false,
    }
}

/// Exactly one status was appended: the prior entries stand untouched
/// and the new one carries this application's name, version, and
/// end-of-life text.
pub open spec fn pushed_status(
    pre_apps: Seq<application::Status>,
    post_apps: Seq<application::Status>,
    name: Seq<char>,
    version: Seq<char>,
    eol_text: Option<Seq<char>>,
) -> bool {
    &&& post_apps.len() == pre_apps.len() + 1
    &&& (forall|i: int| 0 <= i < pre_apps.len() ==> post_apps[i] == pre_apps[i])
    &&& post_apps.last().name@ == name
    &&& post_apps.last().version@ == version
    &&& (match eol_text {
        Some(t) => post_apps.last().eol_status matches Some(s) && s@ == t,
        None => post_apps.last().eol_status is None,
    })
}

/// Taking up the next application (or stopping once none are left):
/// how the position, the phase and the announced action relate.
pub open spec fn step_spec(
    pre: Worker,
    post: Worker,
    apps: Seq<(Seq<char>, Application)>,
    act: WorkerAction,
) -> bool {
    if pre.idx >= pre.apps@.len() {
        &&& post.idx == pre.idx
        &&& post.phase is Stopping
        &&& (act matches WorkerAction::Stop { name, remove } && name@ == pre.name@ && remove
            == pre.remove)
    } else {
        let app_name = pre.apps@[pre.idx as int];
        match spec_get(apps, app_name@) {
            None => {
                &&& post.idx == pre.idx + 1
                &&& post.phase is Iterating
                &&& (act matches WorkerAction::Skip(
                    Diagnostic::MissingApplication { container, application },
                ) && container@ == pre.name@ && application@ == app_name@)
            },
            Some(app) => {
                &&& post.idx == pre.idx + 1
                &&& (post.phase matches Phase::Executing { app_name: an, pattern, command, eol }
                    && an@ == app_name@ && pattern@ == app.version_pattern@ && command@
                    == app.version_command@ && eol_config_like(eol, app.eol))
                &&& (act matches WorkerAction::Execute { name, command } && name@ == pre.name@
                    && command@ == app.version_command@)
            },
        }
    }
}

/// A step that takes up the next application without recording
/// anything.
pub open spec fn advances_keeping(
    pre: Worker,
    post: Worker,
    apps: Seq<(Seq<char>, Application)>,
    act: WorkerAction,
) -> bool {
    &&& advance_frame(pre, post)
    &&& post.status == pre.status
    &&& step_spec(pre, post, apps, act)
}

/// A step that records one finished application and takes up the next.
pub open spec fn advances_appending(
    pre: Worker,
    post: Worker,
    apps: Seq<(Seq<char>, Application)>,
    act: WorkerAction,
    name: Seq<char>,
    version: Seq<char>,
    eol_text: Option<Seq<char>>,
) -> bool {
    &&& advance_frame(pre, post)
    &&& post.status.name == pre.status.name
    &&& pushed_status(pre.status.apps@, post.status.apps@, name, version, eol_text)
    &&& step_spec(pre, post, apps, act)
}

/// A failed extraction records nothing: the status list is exactly
/// what it was, the worker waits to proceed with the remaining
/// applications, and the diagnostic carries the command, the pattern
/// and the raw output.
pub open spec fn skips_without_recording(
    pre: Worker,
    post: Worker,
    act: WorkerAction,
    app_name: Seq<char>,
    command: Seq<char>,
    pattern: Seq<char>,
    output: Seq<char>,
) -> bool {
    &&& advance_frame(pre, post)
    &&& post.status == pre.status
    &&& post.idx == pre.idx
    &&& post.phase is Iterating
    &&& (act matches WorkerAction::Skip(
        Diagnostic::ExtractionFailed { container, application, command: c, pattern: p, output: o },
    ) && container@ == pre.name@ && application@ == app_name && c@ == command && p@ == pattern
        && o@ == output)
}

/// The environment is released and the worker halts, recording
/// nothing further.
pub open spec fn halts_to_stopping(pre: Worker, post: Worker, act: WorkerAction) -> bool {
    &&& advance_frame(pre, post)
    &&& post.status == pre.status
    &&& post.idx == pre.idx
    &&& post.phase is Stopping
    &&& (act matches WorkerAction::Stop { name, remove } && name@ == pre.name@ && remove
        == pre.remove)
}

/// The ghost image of an optional rendered end-of-life text.
pub open spec fn opt_text(o: Option<String>) -> Option<Seq<char>> {
    match o {
        Some(s) => Some(s@),
        None => None,
    }
}

impl Worker {
    /// A freshly created worker for one container.
    pub open spec fn initialized_for(self, name: Seq<char>, c: Container, remove: bool) -> bool {
        &&& self.name@ == name
        &&& self.image@ == c.path@
        &&& self.remove == remove
        &&& self.idx == 0
        &&& self.phase is Ready
        &&& self.status.name@ == name
        &&& self.status.apps@.len() == 0
        &&& names_sorted(self.apps@)
        &&& self.apps@.to_multiset() == c.apps@.to_multiset()
    }

    /// Creates the worker for one container, fixing the deterministic
    /// processing order: the container's applications sorted by name.
    pub fn new(name: String, container: Container, remove: bool) -> (w: Worker)
        ensures
            w.initialized_for(name@, container, remove),
    {
        let mut apps = container.apps;
        sort_strings(&mut apps);
        let status = container::Status::new(name.clone());
        Worker { name, image: container.path, remove, apps, idx: 0, status, phase: Phase::Ready }
    }

    /// Asks the driver to start the environment.
    pub fn begin(&mut self) -> (act: WorkerAction)
        requires
            old(self).phase is Ready,
        ensures
            advance_frame(*old(self), *final(self)),
            final(self).status == old(self).status,
            final(self).idx == old(self).idx,
            final(self).phase is Launching,
            act matches WorkerAction::Start { name, image } && name@ == old(self).name@ && image@
                == old(self).image@,
    {
        self.phase = Phase::Launching;
        WorkerAction::Start { name: self.name.clone(), image: self.image.clone() }
    }

    /// Takes the outcome of starting the environment. On failure the
    /// worker is fatal to this container only: it skips every
    /// application but still releases whatever was acquired.
    pub fn started(&mut self, apps: &ApplicationMap, ok: bool) -> (act: WorkerAction)
        requires
            old(self).phase is Launching,
        ensures
            if ok {
                advances_keeping(*old(self), *final(self), apps@, act)
            } else {
                halts_to_stopping(*old(self), *final(self), act)
            },
    {
        if ok {
            self.next_step(apps)
        } else {
            self.phase = Phase::Stopping;
            WorkerAction::Stop { name: self.name.clone(), remove: self.remove }
        }
    }

    /// Moves on after a reported skip.
    pub fn proceed(&mut self, apps: &ApplicationMap) -> (act: WorkerAction)
        requires
            old(self).phase is Iterating,
        ensures
            advances_keeping(*old(self), *final(self), apps@, act),
    {
        self.next_step(apps)
    }

    /// Takes the raw output of the current application's version
    /// command. Extraction failure skips this application alone; a
    /// version with no lookup configured, a failed normalization, or a
    /// cached record each finish it on the spot; only an uncached
    /// lookup asks the driver to fetch.
    pub fn output(&mut self, apps: &ApplicationMap, store: &CycleCache, out: &str) -> (act:
        WorkerAction)
        requires
            old(self).phase is Executing,
        ensures
            old(self).phase matches Phase::Executing { app_name, pattern, command, eol } && (
            match version_capture_of(pattern@, out@) {
                None => skips_without_recording(
                    *old(self),
                    *final(self),
                    act,
                    app_name@,
                    command@,
                    pattern@,
                    out@,
                ),
                Some(v) => match eol {
                    None => advances_appending(
                        *old(self),
                        *final(self),
                        apps@,
                        act,
                        app_name@,
                        v,
                        Option::None,
                    ),
                    Some(cfg) => match first_match_of(cfg.version_pattern@, v) {
                        None => advances_appending(
                            *old(self),
                            *final(self),
                            apps@,
                            act,
                            app_name@,
                            v,
                            Option::None,
                        ),
                        Some(canon) => match spec_get(store@, (cfg.product_name@, canon)) {
                            Some(c) => advances_appending(
                                *old(self),
                                *final(self),
                                apps@,
                                act,
                                app_name@,
                                v,
                                Option::Some(date_text(c.eol)),
                            ),
                            None => {
                                &&& advance_frame(*old(self), *final(self))
                                &&& final(self).status == old(self).status
                                &&& final(self).idx == old(self).idx
                                &&& (final(self).phase matches Phase::Fetching {
                                    app_name: an,
                                    version,
                                    product,
                                    canonical,
                                } && an@ == app_name@ && version@ == v && product@
                                    == cfg.product_name@ && canonical@ == canon)
                                &&& (act matches WorkerAction::Fetch { product, version }
                                    && product@ == cfg.product_name@ && version@ == canon)
                            },
                        },
                    },
                },
            }),
    {
        let (app_name, pattern, command, eol) = match &self.phase {
            Phase::Executing { app_name, pattern, command, eol } => (
                app_name.clone(),
                pattern.clone(),
                command.clone(),
                dup_eol(eol),
            ),
            _ => unreached(),
        };
        match crate::application::regex_capture_version(pattern.as_str(), out) {
            None => {
                self.phase = Phase::Iterating;
                WorkerAction::Skip(
                    Diagnostic::ExtractionFailed {
                        container: self.name.clone(),
                        application: app_name,
                        command,
                        pattern,
                        output: out.to_owned(),
                    },
                )
            },
            Some(version) => match eol {
                None => self.push_status_and_advance(apps, app_name, version, None),
                Some(cfg) => match cfg.query(store, version.as_str()) {
                    Err(_) => self.push_status_and_advance(apps, app_name, version, None),
                    Ok(Resolution::Cached(c)) => {
                        let text = c.status_text();
                        self.push_status_and_advance(apps, app_name, version, Some(text))
                    },
                    Ok(Resolution::NeedsFetch(canonical)) => {
                        let product = cfg.product_name;
                        let act = WorkerAction::Fetch {
                            product: product.clone(),
                            version: canonical.clone(),
                        };
                        self.phase = Phase::Fetching { app_name, version, product, canonical };
                        act
                    },
                },
            },
        }
    }

    /// Takes the outcome of the lifecycle lookup (`None` on any
    /// failure), applies the caching policy, and records the
    /// application — with no end-of-life text when the lookup failed,
    /// since enrichment is best-effort.
    pub fn fetched(&mut self, apps: &ApplicationMap, store: &mut CycleCache, response: Option<
        Cycle,
    >) -> (act: WorkerAction)
        requires
            old(self).phase is Fetching,
            old(store).wf(),
        ensures
            final(store).wf(),
            old(self).phase matches Phase::Fetching { app_name, version, product, canonical } && (
            match response {
                None => final(store)@ == old(store)@ && advances_appending(
                    *old(self),
                    *final(self),
                    apps@,
                    act,
                    app_name@,
                    version@,
                    Option::None,
                ),
                Some(c) => match c.eol {
                    crate::end_of_life::EOLDate::Date(_) => match spec_get(
                        old(store)@,
                        (product@, canonical@),
                    ) {
                        Some(stored) => final(store)@ == old(store)@ && advances_appending(
                            *old(self),
                            *final(self),
                            apps@,
                            act,
                            app_name@,
                            version@,
                            Option::Some(date_text(stored.eol)),
                        ),
                        None => final(store)@ == old(store)@.push(
                            ((product@, canonical@), c@),
                        ) && advances_appending(
                            *old(self),
                            *final(self),
                            apps@,
                            act,
                            app_name@,
                            version@,
                            Option::Some(date_text(c@.eol)),
                        ),
                    },
                    crate::end_of_life::EOLDate::Alive(_) => final(store)@ == old(store)@
                        && advances_appending(
                        *old(self),
                        *final(self),
                        apps@,
                        act,
                        app_name@,
                        version@,
                        Option::Some(date_text(c@.eol)),
                    ),
                },
            }),
    {
        let (app_name, version, product, canonical) = match &self.phase {
            Phase::Fetching { app_name, version, product, canonical } => (
                app_name.clone(),
                version.clone(),
                product.clone(),
                canonical.clone(),
            ),
            _ => unreached(),
        };
        let text = match resolve_response(store, product.as_str(), canonical.as_str(), response) {
            Ok(c) => Some(c.status_text()),
            Err(_) => None,
        };
        self.push_status_and_advance(apps, app_name, version, text)
    }

    /// Takes the confirmation that the environment was released.
    pub fn stopped(&mut self) -> (act: WorkerAction)
        requires
            old(self).phase is Stopping,
        ensures
            advance_frame(*old(self), *final(self)),
            final(self).status == old(self).status,
            final(self).idx == old(self).idx,
            final(self).phase is Done,
            act is Finished,
    {
        self.phase = Phase::Done;
        WorkerAction::Finished
    }

    pub fn is_done(&self) -> (r: bool)
        ensures
            r == (self.phase is Done),
    {
        match self.phase {
            Phase::Done => true,
            _ => false,
        }
    }

    /// Yields the accumulated status record.
    pub fn into_status(self) -> (s: container::Status)
        ensures
            s == self.status,
    {
        self.status
    }

    /// Appends one finished application and takes up the next.
    fn push_status_and_advance(
        &mut self,
        apps: &ApplicationMap,
        app_name: String,
        version: String,
        eol_text: Option<String>,
    ) -> (act: WorkerAction)
        ensures
            advances_appending(
                *old(self),
                *final(self),
                apps@,
                act,
                app_name@,
                version@,
                opt_text(eol_text),
            ),
    {
        let st = application::Status { name: app_name, version, eol_status: eol_text };
        self.status.apps.push(st);
        self.next_step(apps)
    }

    /// Takes up the next application, skips an undefined one, or asks
    /// for the environment to be stopped once all are processed.
    fn next_step(&mut self, apps: &ApplicationMap) -> (act: WorkerAction)
        ensures
            advances_keeping(*old(self), *final(self), apps@, act),
    {
        if self.idx >= self.apps.len() {
            self.phase = Phase::Stopping;
            return WorkerAction::Stop { name: self.name.clone(), remove: self.remove };
        }
        let app_name = self.apps[self.idx].clone();
        self.idx = self.idx + 1;
        match apps.get(app_name.as_str()) {
            None => {
                self.phase = Phase::Iterating;
                WorkerAction::Skip(
                    Diagnostic::MissingApplication {
                        container: self.name.clone(),
                        application: app_name,
                    },
                )
            },
            Some(app) => {
                let command = app.version_command.clone();
                let pattern = app.version_pattern.clone();
                let eol = dup_eol(&app.eol);
                self.phase = Phase::Executing { app_name, pattern, command: command.clone(), eol };
                WorkerAction::Execute { name: self.name.clone(), command }
            },
        }
    }
}

/// A copy of an optional lookup configuration.
fn dup_eol(e: &Option<EolConfig>) -> (r: Option<EolConfig>)
    ensures
        eol_config_like(r, *e),
{
    match e {
        Some(c) => Some(c.duplicate()),
        None => None,
    }
}

/// Law: an application whose extraction pattern does not match its
/// command output leaves no entry behind, and any sibling the worker
/// records afterwards does appear: the container's status then holds
/// exactly the prior entries plus the sibling's, nothing for the
/// failed application.
pub proof fn lemma_failed_extraction_keeps_siblings(
    pre: Worker,
    mid: Worker,
    post: Worker,
    act1: WorkerAction,
    act2: WorkerAction,
    apps: Seq<(Seq<char>, Application)>,
    a_name: Seq<char>,
    a_cmd: Seq<char>,
    a_pat: Seq<char>,
    a_out: Seq<char>,
    b_name: Seq<char>,
    b_version: Seq<char>,
    b_text: Option<Seq<char>>,
)
    requires
        skips_without_recording(pre, mid, act1, a_name, a_cmd, a_pat, a_out),
        advances_appending(mid, post, apps, act2, b_name, b_version, b_text),
    ensures
        post.status.apps@.len() == pre.status.apps@.len() + 1,
        post.status.apps@.last().name@ == b_name,
        forall|i: int|
            0 <= i < pre.status.apps@.len() ==> post.status.apps@[i] == pre.status.apps@[i],
{
}

} // verus!
