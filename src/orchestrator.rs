use vstd::prelude::*;
use crate::config::{build_config, is_config_for, main_filename, CompilerConfiguration, ConfigError};
use crate::plugins::{assemble, is_pipeline_for, PipelinePlugin};
use crate::request::{joined_path, BundleRequest};
use crate::session::{Decision, SessionState, Signal, StopReason};

verus! {

/// Why a bundle run failed.
#[derive(Clone, Debug, PartialEq, Eq)]
pub enum BundleError {
    /// The entry file does not exist at the path given.
    EntryNotFound { path: String },
    /// The configuration breaks one of its own invariants.
    ConfigInvalid,
    /// The compilation engine reported a failure.
    BuildFailed { diagnostic: String },
    /// The file watcher could not be set up.
    WatchSetupFailed { reason: String },
}

/// What the caller observed since the last action.
#[derive(Debug)]
pub enum Event {
    /// The run begins.
    Start,
    /// The file watcher observes the session's paths.
    WatchReady,
    /// The file watcher could not be set up, for the reason given.
    WatchFailed(String),
    /// Watched files changed.
    Changed,
    /// The build that was asked for ended, with the engine's diagnostic on
    /// failure.
    BuildFinished(Result<(), String>),
    /// The caller asks the run to end.
    Cancelled,
}

/// What the caller does next.
#[derive(Debug)]
pub enum Action {
    /// Have the file watcher observe [`BundleOrchestrator::watch_paths`].
    Subscribe,
    /// Run the engine once, with the orchestrator's configuration and plugins.
    Build,
    /// Wait for the next event.
    Wait,
    /// The run is over, with this result.
    Finish(Result<(), BundleError>),
}

impl Event {
    pub open spec fn signal(self) -> Signal {
        match self {
            Event::Start => Signal::Start,
            Event::WatchReady => Signal::WatchReady,
            Event::WatchFailed(_) => Signal::WatchFailed,
            Event::Changed => Signal::Changed,
            Event::BuildFinished(Ok(())) => Signal::BuildSucceeded,
            Event::BuildFinished(Err(_)) => Signal::BuildFailed,
            Event::Cancelled => Signal::Cancelled,
        }
    }
}

/// `a` carries out the decision `d`, taken on `event`.
pub open spec fn carries_out(d: Decision, a: Action, event: Event) -> bool {
    match d {
        Decision::Subscribe => a is Subscribe,
        Decision::Build => a is Build,
        Decision::Wait => a is Wait,
        Decision::Stop(StopReason::Completed) => a matches Action::Finish(Ok(())),
        Decision::Stop(StopReason::BuildFailed) => a matches Action::Finish(
            Err(BundleError::BuildFailed { diagnostic }),
        ) && event matches Event::BuildFinished(Err(d)) && diagnostic@ == d@,
        Decision::Stop(StopReason::WatchSetupFailed) => a matches Action::Finish(
            Err(BundleError::WatchSetupFailed { reason }),
        ) && event matches Event::WatchFailed(m) && reason@ == m@,
    }
}

/// Drives one bundle run: a single build, or a watch session. The
/// configuration and the plugin list are made once and never change; every
/// build of the run is handed the same two.
pub struct BundleOrchestrator {
    config: CompilerConfiguration,
    plugins: Vec<PipelinePlugin>,
    watch_paths: Vec<String>,
    session: SessionState,
}

impl BundleOrchestrator {
    pub closed spec fn spec_config(&self) -> CompilerConfiguration {
        self.config
    }

    pub closed spec fn spec_plugins(&self) -> Seq<PipelinePlugin> {
        self.plugins@
    }

    pub closed spec fn spec_watch_paths(&self) -> Seq<String> {
        self.watch_paths@
    }

    pub closed spec fn spec_session(&self) -> SessionState {
        self.session
    }

    /// The orchestrator after `event`: only the session moves.
    pub closed spec fn after(self, event: Event) -> BundleOrchestrator {
        BundleOrchestrator { session: self.session.next(event.signal()).0, ..self }
    }

    /// The orchestrator after `events`, one after the other.
    pub open spec fn replay(self, events: Seq<Event>) -> BundleOrchestrator
        decreases events.len(),
    {
        if events.len() == 0 {
            self
        } else {
            self.after(events[0]).replay(events.drop_first())
        }
    }

    /// Prepares the run of `request` in the working directory `root`.
    /// `resolved_entry` is the canonical path of the entry, `None` where it
    /// does not exist; in watch mode the working directory and
    /// `extra_watch_paths` are observed.
    pub fn new(
        request: &BundleRequest,
        root: &str,
        resolved_entry: Option<String>,
        extra_watch_paths: Vec<String>,
    ) -> (r: Result<BundleOrchestrator, BundleError>)
        ensures
            r is Ok <==> resolved_entry is Some,
            resolved_entry is None ==> (r matches Err(BundleError::EntryNotFound { path })
                && path@ == joined_path(root@, request.entry_file@)),
            r matches Ok(o) ==> {
                &&& o.spec_config().wf()
                &&& is_config_for(
                    o.spec_config(),
                    root@,
                    resolved_entry.unwrap()@,
                    main_filename(*request),
                )
                &&& is_pipeline_for(o.spec_plugins(), root@, resolved_entry.unwrap()@)
                &&& o.spec_session() == SessionState::initial(request.is_watch())
                &&& o.spec_watch_paths().len() == extra_watch_paths@.len() + 1
                &&& o.spec_watch_paths()[0]@ == root@
                &&& o.spec_watch_paths().drop_first() == extra_watch_paths@
            },
    {
        let config = match build_config(request, root, resolved_entry) {
            Ok(c) => c,
            Err(ConfigError::EntryNotFound { path }) => {
                return Err(BundleError::EntryNotFound { path });
            },
            Err(ConfigError::ConfigInvalid) => {
                return Err(BundleError::ConfigInvalid);
            },
        };
        let plugins = assemble(&config);
        let mut extra = extra_watch_paths;
        let mut watch_paths: Vec<String> = Vec::new();
        watch_paths.push(String::from_str(root));
        watch_paths.append(&mut extra);
        assert(watch_paths@.drop_first() =~= extra_watch_paths@);
        let watch = match &request.watch {
            Some(_) => true,
            None => false,
        };
        Ok(BundleOrchestrator { config, plugins, watch_paths, session: SessionState::new(watch) })
    }

    pub fn config(&self) -> (r: &CompilerConfiguration)
        ensures
            *r == self.spec_config(),
    {
        &self.config
    }

    pub fn plugins(&self) -> (r: &Vec<PipelinePlugin>)
        ensures
            r@ == self.spec_plugins(),
    {
        &self.plugins
    }

    pub fn watch_paths(&self) -> (r: &Vec<String>)
        ensures
            r@ == self.spec_watch_paths(),
    {
        &self.watch_paths
    }

    pub fn session(&self) -> (r: SessionState)
        ensures
            r == self.spec_session(),
    {
        self.session
    }

    /// Takes `event` into account and says what to do next. The
    /// configuration, the plugins and the watched paths stay as they were.
    pub fn handle(&mut self, event: Event) -> (r: Action)
        ensures
            *final(self) == old(self).after(event),
            final(self).spec_config() == old(self).spec_config(),
            final(self).spec_plugins() == old(self).spec_plugins(),
            final(self).spec_watch_paths() == old(self).spec_watch_paths(),
            final(self).spec_session() == old(self).spec_session().next(event.signal()).0,
            carries_out(old(self).spec_session().next(event.signal()).1, r, event),
    {
        let sig = match &event {
            Event::Start => Signal::Start,
            Event::WatchReady => Signal::WatchReady,
            Event::WatchFailed(_) => Signal::WatchFailed,
            Event::Changed => Signal::Changed,
            Event::BuildFinished(Ok(())) => Signal::BuildSucceeded,
            Event::BuildFinished(Err(_)) => Signal::BuildFailed,
            Event::Cancelled => Signal::Cancelled,
        };
        let d = self.session.step(sig);
        match d {
            Decision::Subscribe => Action::Subscribe,
            Decision::Build => Action::Build,
            Decision::Wait => Action::Wait,
            Decision::Stop(StopReason::Completed) => Action::Finish(Ok(())),
            Decision::Stop(StopReason::BuildFailed) => match event {
                Event::BuildFinished(Err(diagnostic)) => Action::Finish(
                    Err(BundleError::BuildFailed { diagnostic }),
                ),
                _ => Action::Wait,
            },
            Decision::Stop(StopReason::WatchSetupFailed) => match event {
                Event::WatchFailed(reason) => Action::Finish(
                    Err(BundleError::WatchSetupFailed { reason }),
                ),
                _ => Action::Wait,
            },
        }
    }
}

/// Whatever events a run goes through, every build of it is handed the
/// configuration and the plugin list that the run started with, so its
/// chunk and module id strategies never change between rebuilds.
pub proof fn pipeline_is_shared_by_all_builds(o: BundleOrchestrator, events: Seq<Event>)
    ensures
        o.replay(events).spec_config() == o.spec_config(),
        o.replay(events).spec_plugins() == o.spec_plugins(),
        o.replay(events).spec_watch_paths() == o.spec_watch_paths(),
    decreases events.len(),
{
    if events.len() > 0 {
        pipeline_is_shared_by_all_builds(o.after(events[0]), events.drop_first());
    }
}

} // verus!
