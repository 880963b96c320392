//! The launcher: the version registry, the two hook slots and the event bus,
//! with the entry point that starts a launch.
use vstd::prelude::*;
use crate::hooks::{EventBus, InvalidHandlerError, Slot};
use crate::launch::{begin_step, engine_stage, resume, resume_step, LaunchRun, Next, Settled, Step, Waiting};
use crate::registry::{RegistryView, VersionRegistry};

verus! {

pub ghost struct LauncherView<C, H> {
    pub registry: RegistryView,
    pub pack_loader: Option<C>,
    pub launcher_callback: Option<C>,
    pub listeners: Map<Seq<char>, H>,
}

/// Runs launches of registered versions through the pack loader `C`, the
/// engine start and the launch notifier `C`, and reports to listeners `H`.
pub struct Launcher<C, H> {
    registry: VersionRegistry,
    pack_loader: Slot<C>,
    launcher_callback: Slot<C>,
    listeners: EventBus<H>,
}

impl<C, H> View for Launcher<C, H> {
    type V = LauncherView<C, H>;

    closed spec fn view(&self) -> LauncherView<C, H> {
        LauncherView {
            registry: self.registry@,
            pack_loader: self.pack_loader@,
            launcher_callback: self.launcher_callback@,
            listeners: self.listeners@,
        }
    }
}

impl<C, H> Launcher<C, H> {
    pub closed spec fn wf(&self) -> bool {
        self.registry.wf() && self.listeners.wf()
    }

    /// A launcher over `registry`, with empty slots and no listeners.
    pub fn with_registry(registry: VersionRegistry) -> (r: Self)
        requires
            registry.wf(),
        ensures
            r.wf(),
            r@.registry == registry@,
            r@.pack_loader == None::<C>,
            r@.launcher_callback == None::<C>,
            r@.listeners == Map::<Seq<char>, H>::empty(),
    {
        Launcher {
            registry,
            pack_loader: Slot::new(),
            launcher_callback: Slot::new(),
            listeners: EventBus::new(),
        }
    }

    /// A launcher over the default versions, with empty slots and no listeners.
    pub fn new() -> (r: Self)
        ensures
            r.wf(),
            r@.registry == VersionRegistry::with_defaults_view(),
            r@.pack_loader == None::<C>,
            r@.launcher_callback == None::<C>,
            r@.listeners == Map::<Seq<char>, H>::empty(),
    {
        Launcher::with_registry(VersionRegistry::with_defaults())
    }

    pub fn registry(&self) -> (r: &VersionRegistry)
        requires
            self.wf(),
        ensures
            r.wf(),
            r@ == self@.registry,
    {
        &self.registry
    }

    /// See [`VersionRegistry::add_version`].
    pub fn add_version(&mut self, version: &str, url: &str, info: Option<String>) -> (r: bool)
        requires
            old(self).wf(),
        ensures
            final(self).wf(),
            r,
            final(self)@ == (LauncherView {
                registry: RegistryView {
                    targets: old(self)@.registry.targets.insert(version@, url@),
                    infos: match info {
                        Some(i) => old(self)@.registry.infos.insert(version@, i@),
                        None => old(self)@.registry.infos,
                    },
                },
                ..old(self)@
            }),
    {
        self.registry.add_version(version, url, info)
    }

    /// See [`VersionRegistry::remove_version`].
    pub fn remove_version(&mut self, version: &str) -> (r: bool)
        requires
            old(self).wf(),
        ensures
            final(self).wf(),
            r == old(self)@.registry.targets.contains_key(version@),
            final(self)@ == (LauncherView {
                registry: RegistryView {
                    targets: old(self)@.registry.targets.remove(version@),
                    infos: old(self)@.registry.infos.remove(version@),
                },
                ..old(self)@
            }),
    {
        self.registry.remove_version(version)
    }

    /// See [`VersionRegistry::version_info`].
    pub fn version_info(&self, version: &str) -> (r: String)
        requires
            self.wf(),
        ensures
            r@ == crate::registry::describe(self@.registry.infos, version@),
    {
        self.registry.version_info(version)
    }

    /// See [`VersionRegistry::get_launch_url`].
    pub fn get_launch_url(&self, version: &str) -> (r: String)
        requires
            self.wf(),
        ensures
            r@ == crate::registry::resolve(self@.registry.targets, version@),
    {
        self.registry.get_launch_url(version)
    }

    /// See [`VersionRegistry::list_versions`].
    pub fn list_versions(&self) -> (r: Vec<String>)
        requires
            self.wf(),
        ensures
            r@.len() == self@.registry.targets.dom().len(),
            forall|i: int, j: int| 0 <= i < j < r@.len() ==> r@[i]@ != r@[j]@,
            forall|k: Seq<char>|
                self@.registry.targets.contains_key(k) <==> exists|i: int|
                    0 <= i < r@.len() && r@[i]@ == k,
    {
        self.registry.list_versions()
    }

    /// Registers the launch notifier, if `callable` says that `cb` can be
    /// called; refuses it otherwise and leaves the slot as it was.
    pub fn set_launcher_callback(&mut self, cb: C, callable: bool) -> (r: Result<(), InvalidHandlerError>)
        requires
            old(self).wf(),
        ensures
            final(self).wf(),
            callable ==> r is Ok && final(self)@ == (LauncherView { launcher_callback: Some(cb), ..old(self)@ }),
            !callable ==> r == Err::<(), _>(InvalidHandlerError::LauncherCallback) && final(self)@ == old(self)@,
    {
        if callable {
            self.launcher_callback.fill(cb);
            Ok(())
        } else {
            Err(InvalidHandlerError::LauncherCallback)
        }
    }

    /// Registers the pack loader, if `callable` says that `cb` can be called;
    /// refuses it otherwise and leaves the slot as it was.
    pub fn set_pack_loader(&mut self, cb: C, callable: bool) -> (r: Result<(), InvalidHandlerError>)
        requires
            old(self).wf(),
        ensures
            final(self).wf(),
            callable ==> r is Ok && final(self)@ == (LauncherView { pack_loader: Some(cb), ..old(self)@ }),
            !callable ==> r == Err::<(), _>(InvalidHandlerError::PackLoader) && final(self)@ == old(self)@,
    {
        if callable {
            self.pack_loader.fill(cb);
            Ok(())
        } else {
            Err(InvalidHandlerError::PackLoader)
        }
    }

    pub fn clear_launcher_callback(&mut self)
        requires
            old(self).wf(),
        ensures
            final(self).wf(),
            final(self)@ == (LauncherView { launcher_callback: None, ..old(self)@ }),
    {
        self.launcher_callback.clear();
    }

    pub fn clear_pack_loader(&mut self)
        requires
            old(self).wf(),
        ensures
            final(self).wf(),
            final(self)@ == (LauncherView { pack_loader: None, ..old(self)@ }),
    {
        self.pack_loader.clear();
    }

    /// The launch notifier, if one is registered.
    pub fn launcher_callback(&self) -> (r: Option<&C>)
        ensures
            match r {
                Some(c) => self@.launcher_callback == Some(*c),
                None => self@.launcher_callback is None,
            },
    {
        self.launcher_callback.get()
    }

    /// The pack loader, if one is registered.
    pub fn pack_loader(&self) -> (r: Option<&C>)
        ensures
            match r {
                Some(c) => self@.pack_loader == Some(*c),
                None => self@.pack_loader is None,
            },
    {
        self.pack_loader.get()
    }

    /// Registers `cb` as the listener for `event`, replacing the one there
    /// was, if `callable` says that it can be called; refuses it otherwise.
    pub fn set_event_listener(&mut self, event: &str, cb: H, callable: bool) -> (r: Result<(), InvalidHandlerError>)
        requires
            old(self).wf(),
        ensures
            final(self).wf(),
            callable ==> r is Ok && final(self)@ == (LauncherView {
                listeners: old(self)@.listeners.insert(event@, cb),
                ..old(self)@
            }),
            !callable ==> r == Err::<(), _>(InvalidHandlerError::Listener) && final(self)@ == old(self)@,
    {
        if callable {
            self.listeners.on(event, cb);
            Ok(())
        } else {
            Err(InvalidHandlerError::Listener)
        }
    }

    pub fn clear_event_listener(&mut self, event: &str)
        requires
            old(self).wf(),
        ensures
            final(self).wf(),
            final(self)@ == (LauncherView { listeners: old(self)@.listeners.remove(event@), ..old(self)@ }),
    {
        self.listeners.off(event);
    }

    /// The listener that an emission of `event` is handed to, if any.
    pub fn listener(&self, event: &str) -> (r: Option<&H>)
        requires
            self.wf(),
        ensures
            match r {
                Some(h) => self@.listeners.contains_key(event@) && *h == self@.listeners[event@],
                None => !self@.listeners.contains_key(event@),
            },
    {
        self.listeners.handler(event)
    }

    /// Starts a launch of `version`: resolves its target once, then asks for
    /// the pack loader to be invoked, or, with none registered, starts the
    /// engine at once.
    pub fn start_engine_async(&self, version: &str) -> (r: Step)
        requires
            self.wf(),
        ensures
            r@ == begin_step(
                self@.registry.targets,
                self@.pack_loader is Some,
                self@.launcher_callback is Some,
                version@,
            ),
    {
        let url = self.registry.get_launch_url(version);
        let version = version.to_owned();
        if self.pack_loader.is_set() {
            Step {
                emission: None,
                next: Next::Invoke(LaunchRun { version, url, waiting: Waiting::PackLoader }),
            }
        } else {
            engine_stage(version, url, self.launcher_callback.is_set())
        }
    }

    /// Continues `run` once the hook it waits on has settled, with the slots
    /// as they are now.
    pub fn resume(&self, run: LaunchRun, settled: Settled) -> (r: Step)
        ensures
            r@ == resume_step(run@, settled@, self@.launcher_callback is Some),
    {
        resume(run, settled, self.launcher_callback.is_set())
    }
}

} // verus!
