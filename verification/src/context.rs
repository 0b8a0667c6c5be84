//! The application context: the one live registry with what is needed to
//! dispatch on it and to rebuild it.
//!
//! The context is meant to stand behind an exclusive-access guard. Its
//! operations take `&mut self`, so whoever holds the guard runs one
//! dispatch or one install at a time, and a dispatch sees one registry from
//! its start to its end. A rebuild needs the guard only at its two ends:
//! `begin_rebuild` hands out a copy of what the build is made from, and
//! `finish_rebuild` installs what the build gave.

use crate::action::Action;
use crate::builder::{built, BuildAnswers, BuildError, BuildErrorView};
use crate::host::{build, dispatch, RoomResolver, Sandbox};
use crate::policy::{reply, Answers, Query};
use crate::registry::{clone_names, ModulesConfig, Registry};
use crate::reload::{ReloadAction, ReloadEvent, ReloadState};
use vstd::prelude::*;

verus! {

/// What a rebuild is made from: the search paths and the configuration as
/// they stood when the rebuild was launched.
pub struct RebuildJob {
    pub paths: Vec<String>,
    pub config: ModulesConfig,
}

impl RebuildJob {
    /// Builds a registry in the fresh execution context `sandbox`, from the
    /// search paths and the configuration of this job. The build succeeds
    /// only as a whole: the result is what `built` gives for some set of
    /// answers of the outside.
    pub fn build<S: Sandbox>(&self, sandbox: S) -> (result: Result<Registry<S>, BuildError>)
        ensures
            exists|a: BuildAnswers| #[trigger]
                built(self.paths.deep_view(), a) == match result {
                    Ok(registry) => Ok::<Seq<Seq<char>>, BuildErrorView>(registry.module_names()),
                    Err(error) => Err(error@),
                },
    {
        build(sandbox, &self.paths, &self.config)
    }
}

/// The long-lived state of the host.
pub struct AppCtx<S, R, D> {
    /// The current registry.
    pub modules: Registry<S>,
    /// The search paths that modules are loaded from.
    pub modules_paths: Vec<String>,
    /// The per-module configuration.
    pub modules_config: ModulesConfig,
    /// Where the hot-reload controller stands.
    pub reload: ReloadState,
    /// The identity of the administrator.
    pub admin_user_id: String,
    /// The handle of the persistent store.
    pub db: D,
    /// The resolver of room references.
    pub room_resolver: R,
}

impl<S, R, D> AppCtx<S, R, D> {
    /// A context around the registry `modules`, with no rebuild wanted.
    pub fn with_registry(
        modules: Registry<S>,
        modules_paths: Vec<String>,
        modules_config: ModulesConfig,
        db: D,
        admin_user_id: String,
        room_resolver: R,
    ) -> (ctx: Self)
        ensures
            ctx == (AppCtx {
                modules,
                modules_paths,
                modules_config,
                reload: ReloadState::Idle,
                admin_user_id,
                db,
                room_resolver,
            }),
    {
        AppCtx {
            modules,
            modules_paths,
            modules_config,
            reload: ReloadState::Idle,
            admin_user_id,
            db,
            room_resolver,
        }
    }

    /// The reload-pending flag: whether a rebuild is wanted or under way.
    pub fn needs_recompile(&self) -> (pending: bool)
        ensures
            pending == self.reload.is_pending(),
    {
        self.reload.pending()
    }

    /// Notes that a bytecode file has changed. Returns whether a rebuild is
    /// to be scheduled: it is unless one is pending already, in which case
    /// the change is absorbed and nothing changes.
    pub fn set_needs_recompile(&mut self) -> (schedule: bool)
        ensures
            *final(self) == (AppCtx {
                reload: old(self).reload.next(ReloadEvent::Changed).0,
                ..*old(self)
            }),
            schedule == (old(self).reload.next(ReloadEvent::Changed).1 is StartTimer),
            schedule == !old(self).reload.is_pending(),
            final(self).reload.is_pending(),
    {
        let (next, action) = self.reload.on_event(ReloadEvent::Changed);
        self.reload = next;
        match action {
            ReloadAction::StartTimer => true,
            _ => false,
        }
    }

    /// Notes that the quiet interval has passed. If a rebuild is pending
    /// and none is under way, the rebuild is to be launched now, from the
    /// copy of the current search paths and configuration that is handed
    /// out; the build itself needs no access to the context.
    pub fn begin_rebuild(&mut self) -> (job: Option<RebuildJob>)
        ensures
            *final(self) == (AppCtx {
                reload: old(self).reload.next(ReloadEvent::QuietElapsed).0,
                ..*old(self)
            }),
            job is Some <==> old(self).reload.next(ReloadEvent::QuietElapsed).1 is LaunchRebuild,
            job is Some <==> old(self).reload is PendingRebuild,
            job matches Some(j) ==> j.paths.deep_view() == old(self).modules_paths.deep_view()
                && j.config@ == old(self).modules_config@,
    {
        let (next, action) = self.reload.on_event(ReloadEvent::QuietElapsed);
        self.reload = next;
        match action {
            ReloadAction::LaunchRebuild => Some(
                RebuildJob {
                    paths: clone_names(&self.modules_paths),
                    config: self.modules_config.copy(),
                },
            ),
            _ => None,
        }
    }

    /// Replaces the current registry by `registry` and clears the
    /// reload-pending flag.
    pub fn install_registry(&mut self, registry: Registry<S>)
        ensures
            *final(self) == (AppCtx {
                modules: registry,
                reload: ReloadState::Idle,
                ..*old(self)
            }),
    {
        self.modules = registry;
        self.reload = ReloadState::Idle;
    }

    /// Ends a rebuild. A registry that was built is installed. A failed
    /// build leaves the current registry as it is, and the failure is
    /// handed back. Either way the reload-pending flag is cleared.
    pub fn finish_rebuild(&mut self, outcome: Result<Registry<S>, BuildError>) -> (failure: Option<
        BuildError,
    >)
        ensures
            match outcome {
                Ok(registry) => failure is None && *final(self) == (AppCtx {
                    modules: registry,
                    reload: ReloadState::Idle,
                    ..*old(self)
                }),
                Err(error) => failure == Some(error) && *final(self) == (AppCtx {
                    reload: ReloadState::Idle,
                    ..*old(self)
                }),
            },
    {
        match outcome {
            Ok(registry) => {
                self.install_registry(registry);
                None
            },
            Err(error) => {
                self.reload = ReloadState::Idle;
                Some(error)
            },
        }
    }
}

impl<S: Sandbox, R: RoomResolver, D> AppCtx<S, R, D> {
    /// Builds the registry in the fresh execution context `sandbox`, from
    /// the search paths `modules_paths` and the configuration
    /// `modules_config`, and makes a context around it, with no rebuild
    /// wanted. There is no context without a registry: if the build fails,
    /// its failure is the result.
    pub fn new(
        sandbox: S,
        modules_paths: Vec<String>,
        modules_config: ModulesConfig,
        db: D,
        admin_user_id: String,
        room_resolver: R,
    ) -> (ctx: Result<Self, BuildError>)
        ensures
            ctx matches Ok(c) ==> c.modules_paths == modules_paths && c.modules_config
                == modules_config && c.admin_user_id == admin_user_id && c.db == db
                && c.room_resolver == room_resolver && c.reload is Idle,
            exists|a: BuildAnswers| #[trigger]
                built(modules_paths.deep_view(), a) == match ctx {
                    Ok(c) => Ok::<Seq<Seq<char>>, BuildErrorView>(c.modules.module_names()),
                    Err(error) => Err(error@),
                },
    {
        match build(sandbox, &modules_paths, &modules_config) {
            Ok(modules) => Ok(
                Self::with_registry(
                    modules,
                    modules_paths,
                    modules_config,
                    db,
                    admin_user_id,
                    room_resolver,
                ),
            ),
            Err(error) => Err(error),
        }
    }

    /// Answers the message `text`, which `sender` sent in `room`, on the
    /// current registry.
    ///
    /// The dispatch runs on one registry from start to end: the loaded
    /// modules and their order, the search paths, the configuration, the
    /// administrator and the reload state are after the dispatch what they
    /// were before it. The actions are those that the priority policy gives
    /// for some set of answers of the outside parties.
    pub fn run_dispatch(&mut self, sender: &str, room: &str, text: &str) -> (actions: Vec<Action>)
        ensures
            final(self).modules.names == old(self).modules.names,
            final(self).modules_paths == old(self).modules_paths,
            final(self).modules_config == old(self).modules_config,
            final(self).reload == old(self).reload,
            final(self).admin_user_id == old(self).admin_user_id,
            final(self).db == old(self).db,
            exists|a: Answers|
                a.covers(old(self).modules.module_names().len()) && actions.deep_view()
                    == #[trigger] reply(
                    Query {
                        names: old(self).modules.module_names(),
                        admin: old(self).admin_user_id@,
                        sender: sender@,
                        room: room@,
                        text: text@,
                    },
                    a,
                ),
    {
        let names = clone_names(&self.modules.names);
        dispatch(
            names,
            self.admin_user_id.as_str(),
            sender,
            room,
            text,
            &mut self.modules.sandbox,
            &mut self.room_resolver,
        )
    }
}

} // verus!
