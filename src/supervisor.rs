use vstd::prelude::*;
use vstd::string::*;
use crate::config::Config;
use crate::module::{reload_order, Module};

verus! {

/// What the supervisor asks of the thread layer for one module.
pub enum RoutineAction<H> {
    /// The module keeps running: interrupt its worker so that it re-reads
    /// the configuration. No join, no new entry.
    Interrupt,
    /// The module was switched off: interrupt the worker and join it. The
    /// handle has left the registry and is handed back for the join.
    Stop(H),
    /// The module was switched on and had no worker: spawn one and
    /// `register` it.
    Spawn,
    /// Nothing to do.
    Idle,
}

/// A message on the control channel.
pub enum Message {
    /// A worker faulted; carries the diagnostic.
    ModulePanic(String),
    /// A new configuration snapshot was parsed.
    ConfigReload(Config),
    /// Reparsing the configuration failed; carries the diagnostic.
    ConfigReloadError(String),
}

/// What the control loop does after one message.
pub enum ControlStep<H> {
    /// A reload pass ran: one action per module, in reload order.
    Applied(Vec<(Module, RoutineAction<H>)>),
    /// The reload failed; the registry is untouched and the loop goes on.
    ReloadFailed(String),
    /// A worker faulted: the loop ends with this diagnostic.
    Exit(String),
}

/// The action that a pass owes module `m` of a registry `workers`
/// under a snapshot in which `m` is switched off or on.
pub open spec fn planned_action<H>(workers: Map<Module, H>, m: Module, off: bool) -> RoutineAction<H> {
    if workers.contains_key(m) {
        if off {
            RoutineAction::Stop(workers[m])
        } else {
            RoutineAction::Interrupt
        }
    } else if off {
        RoutineAction::Idle
    } else {
        RoutineAction::Spawn
    }
}

/// The registry that one module's update leaves, before any spawn is registered.
pub open spec fn after_update<H>(workers: Map<Module, H>, m: Module, off: bool) -> Map<Module, H> {
    if workers.contains_key(m) && off {
        workers.remove(m)
    } else {
        workers
    }
}

/// The modules that a snapshot switches on.
pub open spec fn enabled_set(config: Config) -> Set<Module> {
    Set::new(|m: Module| config.enabled(m))
}

/// The modules running once a whole pass has been applied to the running
/// set `before`: the survivors of the pass, and those it spawned.
pub open spec fn running_after(before: Set<Module>, config: Config) -> Set<Module> {
    before.filter(|m: Module| config.enabled(m)).union(
        Set::new(|m: Module| config.enabled(m) && !before.contains(m)),
    )
}

/// The diagnostic that a worker fault carries.
pub open spec fn fault_text(location: Seq<char>, payload: Seq<char>, backtrace: Seq<char>) -> Seq<char> {
    "panic at '"@ + location + "' - "@ + payload + "\n"@ + backtrace
}

/// The actions of one reload pass over `workers`, one per module in reload order.
pub open spec fn pass_actions<H>(workers: Map<Module, H>, config: Config) -> Seq<(Module, RoutineAction<H>)> {
    reload_order().map_values(|m: Module| (m, planned_action(workers, m, !config.enabled(m))))
}

/// The registry of running workers: at most one handle per module.
pub struct Supervisor<H> {
    sound: Option<H>,
    battery: Option<H>,
    brightness: Option<H>,
    keyboard: Option<H>,
}

impl<H> Supervisor<H> {
    pub closed spec fn slot(&self, m: Module) -> Option<H> {
        match m {
            Module::Sound => self.sound,
            Module::Battery => self.battery,
            Module::Brightness => self.brightness,
            Module::Keyboard => self.keyboard,
        }
    }

    /// Every handle that the registry holds for module `m`.
    pub closed spec fn handles_of(&self, m: Module) -> Seq<H> {
        match self.slot(m) {
            Some(h) => seq![h],
            None => Seq::empty(),
        }
    }

    /// The registry as a map from module to the handle of its worker.
    pub open spec fn view(&self) -> Map<Module, H> {
        Map::new(|m: Module| self.slot(m) is Some, |m: Module| self.slot(m)->0)
    }

    /// An empty registry.
    pub fn new() -> (r: Self)
        ensures
            r@ == Map::<Module, H>::empty(),
    {
        let r = Supervisor { sound: None, battery: None, brightness: None, keyboard: None };
        assert(r@ =~= Map::<Module, H>::empty());
        r
    }

    fn take_slot(&mut self, m: Module) -> (r: Option<H>)
        ensures
            r == old(self).slot(m),
            final(self).slot(m) is None,
            forall|k: Module| k != m ==> final(self).slot(k) == old(self).slot(k),
    {
        match m {
            Module::Sound => self.sound.take(),
            Module::Battery => self.battery.take(),
            Module::Brightness => self.brightness.take(),
            Module::Keyboard => self.keyboard.take(),
        }
    }

    /// Whether module `m` has a worker.
    pub fn is_running(&self, m: Module) -> (r: bool)
        ensures
            r == self@.contains_key(m),
    {
        match m {
            Module::Sound => self.sound.is_some(),
            Module::Battery => self.battery.is_some(),
            Module::Brightness => self.brightness.is_some(),
            Module::Keyboard => self.keyboard.is_some(),
        }
    }

    /// The handle of module `m`'s worker, if it has one.
    pub fn handle(&self, m: Module) -> (r: Option<&H>)
        ensures
            self@.contains_key(m) ==> r == Some(&self@[m]),
            !self@.contains_key(m) ==> r is None,
    {
        match m {
            Module::Sound => self.sound.as_ref(),
            Module::Battery => self.battery.as_ref(),
            Module::Brightness => self.brightness.as_ref(),
            Module::Keyboard => self.keyboard.as_ref(),
        }
    }

    /// Records the freshly spawned worker of module `m`, which had none.
    pub fn register(&mut self, m: Module, handle: H)
        requires
            !old(self)@.contains_key(m),
        ensures
            final(self)@ == old(self)@.insert(m, handle),
    {
        match m {
            Module::Sound => self.sound = Some(handle),
            Module::Battery => self.battery = Some(handle),
            Module::Brightness => self.brightness = Some(handle),
            Module::Keyboard => self.keyboard = Some(handle),
        }
        assert(self@ =~= old(self)@.insert(m, handle));
    }

    /// Decides what module `name` needs under a snapshot in which it is
    /// `off` or on. A module that is switched off leaves the registry here,
    /// its handle handed back to be joined.
    pub fn update_routine(&mut self, name: Module, off: bool) -> (r: RoutineAction<H>)
        ensures
            r == planned_action(old(self)@, name, off),
            final(self)@ == after_update(old(self)@, name, off),
    {
        if off {
            let taken = self.take_slot(name);
            proof {
                if old(self)@.contains_key(name) {
                    assert(self@ =~= old(self)@.remove(name));
                } else {
                    assert(self@ =~= old(self)@);
                }
            }
            match taken {
                Some(h) => RoutineAction::Stop(h),
                None => RoutineAction::Idle,
            }
        } else if self.is_running(name) {
            RoutineAction::Interrupt
        } else {
            RoutineAction::Spawn
        }
    }
}

impl<H> Supervisor<H> {
    /// Runs one reload pass: `update_routine` for every module, in reload
    /// order. Afterwards only the modules that `config` switches on keep
    /// their workers; those that it newly switches on are due a spawn.
    pub fn apply(&mut self, config: &Config) -> (r: Vec<(Module, RoutineAction<H>)>)
        ensures
            r@ == pass_actions(old(self)@, *config),
            final(self)@ == old(self)@.restrict(enabled_set(*config)),
    {
        let a0 = self.update_routine(Module::Sound, config.sound.off);
        let a1 = self.update_routine(Module::Battery, config.battery.off);
        let a2 = self.update_routine(Module::Keyboard, config.keyboard.off);
        let a3 = self.update_routine(Module::Brightness, config.brightness.off);
        let r = vec![
            (Module::Sound, a0),
            (Module::Battery, a1),
            (Module::Keyboard, a2),
            (Module::Brightness, a3),
        ];
        assert(r@ =~= pass_actions(old(self)@, *config));
        assert(self@ =~= old(self)@.restrict(enabled_set(*config)));
        r
    }

    /// Processes one control message. A reload runs a pass; a failed
    /// reload leaves the registry as it is; a fault ends the loop.
    pub fn handle_message(&mut self, msg: Message) -> (r: ControlStep<H>)
        ensures
            match msg {
                Message::ConfigReload(c) => {
                    &&& r matches ControlStep::Applied(actions)
                        && actions@ == pass_actions(old(self)@, c)
                    &&& final(self)@ == old(self)@.restrict(enabled_set(c))
                },
                Message::ConfigReloadError(e) => {
                    &&& r == ControlStep::<H>::ReloadFailed(e)
                    &&& final(self)@ == old(self)@
                },
                Message::ModulePanic(d) => {
                    &&& r == ControlStep::<H>::Exit(d)
                    &&& final(self)@ == old(self)@
                },
            },
    {
        match msg {
            Message::ConfigReload(c) => ControlStep::Applied(self.apply(&c)),
            Message::ConfigReloadError(e) => ControlStep::ReloadFailed(e),
            Message::ModulePanic(d) => ControlStep::Exit(d),
        }
    }
}

impl<H> ControlStep<H> {
    /// Whether the control loop ends after this step.
    pub fn is_exit(&self) -> (r: bool)
        ensures
            r == (self is Exit),
    {
        match self {
            ControlStep::Exit(_) => true,
            _ => false,
        }
    }
}

/// The message that the fault hook sends for a fault raised at
/// `location` with text `payload`.
pub fn fault_message(location: &str, payload: &str, backtrace: &str) -> (r: Message)
    ensures
        r matches Message::ModulePanic(d) && d@ == fault_text(location@, payload@, backtrace@),
{
    let mut d = "panic at '".to_owned();
    d.append(location);
    d.append("' - ");
    d.append(payload);
    d.append("\n");
    d.append(backtrace);
    proof {
        assert(d@ =~= fault_text(location@, payload@, backtrace@));
    }
    Message::ModulePanic(d)
}

/// The registry holds at most one worker handle per module, and it holds
/// one exactly when the module counts as running.
pub proof fn lemma_at_most_one_worker<H>(s: Supervisor<H>, m: Module)
    ensures
        s.handles_of(m).len() <= 1,
        s.handles_of(m).len() == 1 <==> s@.contains_key(m),
        s@.contains_key(m) ==> s.handles_of(m) == seq![s@[m]],
{
}

/// A pass spawns a worker for a module only when the snapshot switches it
/// on and the registry holds no worker for it.
pub proof fn lemma_spawn_only_when_absent<H>(workers: Map<Module, H>, m: Module, off: bool)
    ensures
        planned_action(workers, m, off) is Spawn <==> (!off && !workers.contains_key(m)),
        planned_action(workers, m, off) is Spawn ==> after_update(workers, m, off) == workers,
{
}

/// Switching a running module off hands back exactly its worker for the
/// join and removes its entry; nothing else in the registry changes.
pub proof fn lemma_stop_hands_back_worker<H>(workers: Map<Module, H>, m: Module)
    requires
        workers.contains_key(m),
    ensures
        planned_action(workers, m, true) == RoutineAction::Stop(workers[m]),
        !after_update(workers, m, true).contains_key(m),
        forall|k: Module| k != m ==> after_update(workers, m, true).contains_key(k)
            == workers.contains_key(k),
{
}

/// Reload passes compose in order: once a pass is complete, the running
/// set is exactly what its snapshot switches on, whatever ran before, so a
/// second pass starts from the state that the first one left.
pub proof fn lemma_reloads_in_order(before: Set<Module>, first: Config, second: Config)
    ensures
        running_after(before, first) == enabled_set(first),
        running_after(running_after(before, first), second) == enabled_set(second),
{
    assert(running_after(before, first) =~= enabled_set(first));
    assert(running_after(enabled_set(first), second) =~= enabled_set(second));
}

/// The diagnostic of a fault holds the fault's own text, right after the
/// location.
pub proof fn lemma_fault_text_holds_payload(location: Seq<char>, payload: Seq<char>, backtrace: Seq<char>)
    ensures
        ({
            let start: int = 14 + location.len() as int;
            &&& fault_text(location, payload, backtrace).subrange(start, start + payload.len() as int) == payload
            &&& fault_text(location, payload, backtrace).len() >= start + payload.len() as int
        }),
{
    reveal_strlit("panic at '");
    reveal_strlit("' - ");
    reveal_strlit("\n");
    let start: int = 14 + location.len() as int;
    assert(fault_text(location, payload, backtrace).subrange(start, start + payload.len() as int) =~= payload);
}

} // verus!
