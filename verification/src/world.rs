//! The engine's resource table and schedule, as far as sound touches them.
//!
//! [`World`] stands for the engine: it records which of the sound resources
//! the table holds, whether the chip is switched on, and which systems run
//! after each update. [`Op`] names each thing the setup asks of the engine or
//! the hardware, and [`World::perform`] says what each one does.

use crate::hardware::{Chip, Controller, Frequency, Mixer};
use vstd::prelude::*;

verus! {

/// A system that the engine runs once per update, after the game's own.
#[derive(Clone, Copy, Debug, PartialEq, Eq, Structural)]
pub enum System {
    /// Services the mixer, if the table holds one.
    MixerFrame,
}

impl System {
    /// Whether the system services the mixer in an update in which the table
    /// holds a mixer (`mixer_present`) or holds none.
    pub open spec fn services_spec(self, mixer_present: bool) -> bool {
        match self {
            System::MixerFrame => mixer_present,
        }
    }

    /// Decides whether to service the mixer in this update: exactly when the
    /// table holds one.
    pub fn services(self, mixer_present: bool) -> (service: bool)
        ensures
            service == self.services_spec(mixer_present),
    {
        match self {
            System::MixerFrame => mixer_present,
        }
    }
}

/// One thing the setup asks of the engine or the hardware.
#[derive(Clone, Copy, Debug, PartialEq, Eq, Structural)]
pub enum Op {
    /// Remove the sound chip's controller from the table and keep it.
    TakeSoundController,
    /// Switch the sound chip on.
    EnableSound,
    /// Put the first pulse channel into the table.
    PublishChannel1,
    /// Put the second pulse channel into the table.
    PublishChannel2,
    /// Put the noise generator into the table.
    PublishNoise,
    /// Remove the mixer's controller from the table and keep it.
    TakeMixerController,
    /// Promote the mixer's controller to an allocation that is never freed.
    LeakMixerController,
    /// Make a mixer at the given rate from the promoted controller.
    CreateMixer(Frequency),
    /// Switch the mixer on.
    EnableMixer,
    /// Put the mixer into the table.
    PublishMixer,
}

/// What the setup holds outside the table while it runs.
#[derive(Clone, Copy, Debug, PartialEq, Eq, Structural)]
pub struct Held {
    /// The sound chip's controller.
    pub sound: Chip,
    /// The mixer's controller.
    pub controller: Controller,
    /// A mixer that is not in the table yet.
    pub mixer: Option<Mixer>,
}

impl Held {
    /// Holding nothing.
    pub open spec fn nothing() -> Held {
        Held { sound: Chip::Absent, controller: Controller::Absent, mixer: None }
    }

    /// Holding nothing.
    pub fn new() -> (held: Held)
        ensures
            held == Held::nothing(),
    {
        Held { sound: Chip::Absent, controller: Controller::Absent, mixer: None }
    }
}

/// The state of a [`World`].
pub struct WorldView {
    /// The table holds the sound chip's controller, not switched on.
    pub sound_controller: bool,
    /// The table holds the mixer's controller.
    pub mixer_controller: bool,
    /// The table holds the first pulse channel.
    pub channel1: bool,
    /// The table holds the second pulse channel.
    pub channel2: bool,
    /// The table holds the noise generator.
    pub noise: bool,
    /// The mixer that the table holds.
    pub mixer: Option<Mixer>,
    /// The sound chip is switched on.
    pub sound_enabled: bool,
    /// The systems that run after each update, in the order they were added.
    pub post_update: Seq<System>,
    /// How many times the mixer has been serviced.
    pub serviced: nat,
}

impl WorldView {
    /// An empty table, an empty schedule, the chip off.
    pub open spec fn empty() -> WorldView {
        WorldView {
            sound_controller: false,
            mixer_controller: false,
            channel1: false,
            channel2: false,
            noise: false,
            mixer: None,
            sound_enabled: false,
            post_update: Seq::empty(),
            serviced: 0,
        }
    }

    /// A mixer in the table is switched on.
    pub open spec fn wf(self) -> bool {
        self.mixer matches Some(mixer) ==> mixer.enabled
    }

    /// Whether `op` can be performed by a setup that holds `held`.
    ///
    /// A controller is switched on once, and only when the setup holds it; a
    /// channel comes from a chip that is on; a mixer comes from a controller
    /// that will outlive it, and enters the table only once it is on.
    pub open spec fn admits(self, held: Held, op: Op) -> bool {
        match op {
            Op::TakeSoundController => true,
            Op::EnableSound => held.sound == Chip::Raw,
            Op::PublishChannel1 => held.sound == Chip::Enabled,
            Op::PublishChannel2 => held.sound == Chip::Enabled,
            Op::PublishNoise => held.sound == Chip::Enabled,
            Op::TakeMixerController => true,
            Op::LeakMixerController => held.controller == Controller::Owned,
            Op::CreateMixer(_) => held.controller == Controller::Leaked,
            Op::EnableMixer => held.mixer matches Some(mixer) && !mixer.enabled,
            Op::PublishMixer => held.mixer matches Some(mixer) && mixer.enabled,
        }
    }

    /// Whether `op` finds what it asks for. Only the two that take a
    /// controller from the table can fail to.
    pub open spec fn finds(self, op: Op) -> bool {
        match op {
            Op::TakeSoundController => self.sound_controller,
            Op::TakeMixerController => self.mixer_controller,
            _ => true,
        }
    }

    /// The world after `op`, performed by a setup that holds `held`.
    pub open spec fn after(self, held: Held, op: Op) -> WorldView {
        match op {
            Op::TakeSoundController => WorldView { sound_controller: false, ..self },
            Op::EnableSound => WorldView { sound_enabled: true, ..self },
            Op::PublishChannel1 => WorldView { channel1: true, ..self },
            Op::PublishChannel2 => WorldView { channel2: true, ..self },
            Op::PublishNoise => WorldView { noise: true, ..self },
            Op::TakeMixerController => WorldView { mixer_controller: false, ..self },
            Op::LeakMixerController => self,
            Op::CreateMixer(_) => self,
            Op::EnableMixer => self,
            Op::PublishMixer => WorldView { mixer: held.mixer, ..self },
        }
    }

    /// What the setup holds after `op`, if it held `held` before.
    pub open spec fn held_after(self, held: Held, op: Op) -> Held {
        match op {
            Op::TakeSoundController => Held {
                sound: if self.sound_controller {
                    Chip::Raw
                } else {
                    Chip::Absent
                },
                ..held
            },
            Op::EnableSound => Held { sound: Chip::Enabled, ..held },
            Op::PublishChannel1 => held,
            Op::PublishChannel2 => held,
            Op::PublishNoise => held,
            Op::TakeMixerController => Held {
                controller: if self.mixer_controller {
                    Controller::Owned
                } else {
                    Controller::Absent
                },
                ..held
            },
            Op::LeakMixerController => Held { controller: Controller::Leaked, ..held },
            Op::CreateMixer(frequency) => Held {
                controller: Controller::Lent,
                mixer: Some(Mixer { frequency, enabled: false }),
                ..held
            },
            Op::EnableMixer => Held {
                mixer: Some(Mixer { frequency: held.mixer.unwrap().frequency, enabled: true }),
                ..held
            },
            Op::PublishMixer => Held { mixer: None, ..held },
        }
    }

    /// The world after `system` has run once.
    pub open spec fn after_system(self, system: System) -> WorldView {
        if system.services_spec(self.mixer is Some) {
            WorldView { serviced: self.serviced + 1, ..self }
        } else {
            self
        }
    }

    /// How many times one update services the mixer: once for each system of
    /// the schedule if the table holds a mixer, never if it holds none.
    pub open spec fn services_per_update(self) -> nat {
        if self.mixer is Some {
            self.post_update.len()
        } else {
            0
        }
    }

    /// The world after one update. Nothing changes but the number of times
    /// the mixer was serviced.
    pub open spec fn after_update(self) -> WorldView {
        WorldView { serviced: self.serviced + self.services_per_update(), ..self }
    }

    /// The world after `count` updates.
    pub open spec fn after_updates(self, count: nat) -> WorldView
        decreases count,
    {
        if count == 0 {
            self
        } else {
            self.after_updates((count - 1) as nat).after_update()
        }
    }

    /// The world after the first `count` systems of the schedule have run
    /// once each, in the order they were added.
    pub open spec fn after_systems(self, count: nat) -> WorldView
        decreases count,
    {
        if count == 0 {
            self
        } else {
            self.after_systems((count - 1) as nat).after_system(self.post_update[count - 1])
        }
    }

    /// Running the first `count` systems of the schedule changes nothing but
    /// the number of times the mixer was serviced, which grows by `count` if
    /// the table holds a mixer and stays if it holds none.
    pub proof fn lemma_after_systems(self, count: nat)
        requires
            count <= self.post_update.len(),
        ensures
            self.after_systems(count) == (WorldView {
                serviced: if self.mixer is Some {
                    self.serviced + count
                } else {
                    self.serviced
                },
                ..self
            }),
        decreases count,
    {
        if count > 0 {
            self.lemma_after_systems((count - 1) as nat);
        }
    }

    /// An update is every system of the schedule run once.
    pub proof fn lemma_update_runs_each_system_once(self)
        ensures
            self.after_update() == self.after_systems(self.post_update.len()),
    {
        self.lemma_after_systems(self.post_update.len());
    }

    /// Without a mixer in the table, updates change nothing, however many.
    pub proof fn lemma_updates_without_mixer(self, count: nat)
        requires
            self.mixer is None,
        ensures
            self.after_updates(count) == self,
        decreases count,
    {
        if count > 0 {
            self.lemma_updates_without_mixer((count - 1) as nat);
        }
    }

    /// With a mixer in the table and its one system in the schedule, every
    /// update services the mixer exactly once: after `count` updates it was
    /// serviced `count` times more, and nothing else has changed.
    pub proof fn lemma_service_cadence(self, count: nat)
        requires
            self.mixer is Some,
            self.post_update == seq![System::MixerFrame],
        ensures
            self.after_updates(count) == (WorldView {
                serviced: self.serviced + count,
                ..self
            }),
            count > 0 ==> self.after_updates(count).serviced == self.after_updates(
                (count - 1) as nat,
            ).serviced + 1,
        decreases count,
    {
        if count > 0 {
            self.lemma_service_cadence((count - 1) as nat);
        }
    }
}

/// The engine's resource table and schedule, and the state of the hardware.
///
/// A mixer in the table is always switched on: nothing puts one there before
/// that, so a system that services the mixer it finds is safe.
pub struct World {
    sound_controller: bool,
    mixer_controller: bool,
    channel1: bool,
    channel2: bool,
    noise: bool,
    /// The rate of the mixer in the table. Only a mixer that is switched on
    /// gets there, so that much need not be kept.
    mixer: Option<Frequency>,
    sound_enabled: bool,
    post_update: Vec<System>,
    serviced: Ghost<nat>,
}

impl View for World {
    type V = WorldView;

    closed spec fn view(&self) -> WorldView {
        WorldView {
            sound_controller: self.sound_controller,
            mixer_controller: self.mixer_controller,
            channel1: self.channel1,
            channel2: self.channel2,
            noise: self.noise,
            mixer: match self.mixer {
                Some(frequency) => Some(Mixer { frequency, enabled: true }),
                None => None,
            },
            sound_enabled: self.sound_enabled,
            post_update: self.post_update@,
            serviced: self.serviced@,
        }
    }
}

impl World {
    /// A mixer in the table is switched on, in every world: nothing gets
    /// there before that.
    pub proof fn lemma_wf(self)
        ensures
            self@.wf(),
    {
    }

    /// A world with an empty table and an empty schedule.
    pub fn new() -> (world: World)
        ensures
            world@ == WorldView::empty(),
    {
        World {
            sound_controller: false,
            mixer_controller: false,
            channel1: false,
            channel2: false,
            noise: false,
            mixer: None,
            sound_enabled: false,
            post_update: Vec::new(),
            serviced: Ghost(0),
        }
    }

    /// Puts the sound chip's controller into the table, as the hardware's
    /// own start-up does.
    pub fn deposit_sound_controller(&mut self)
        ensures
            final(self)@ == (WorldView { sound_controller: true, ..old(self)@ }),
    {
        self.sound_controller = true;
    }

    /// Puts the mixer's controller into the table, as the hardware's own
    /// start-up does.
    pub fn deposit_mixer_controller(&mut self)
        ensures
            final(self)@ == (WorldView { mixer_controller: true, ..old(self)@ }),
    {
        self.mixer_controller = true;
    }

    /// Adds a system to those that run after each update.
    pub fn add_post_update_system(&mut self, system: System)
        ensures
            final(self)@ == (WorldView {
                post_update: old(self)@.post_update.push(system),
                ..old(self)@
            }),
    {
        self.post_update.push(system);
    }

    /// Whether the table holds the sound chip's controller.
    pub fn has_sound_controller(&self) -> (present: bool)
        ensures
            present == self@.sound_controller,
    {
        self.sound_controller
    }

    /// Whether the table holds the mixer's controller.
    pub fn has_mixer_controller(&self) -> (present: bool)
        ensures
            present == self@.mixer_controller,
    {
        self.mixer_controller
    }

    /// Whether the table holds the first pulse channel.
    pub fn has_channel1(&self) -> (present: bool)
        ensures
            present == self@.channel1,
    {
        self.channel1
    }

    /// Whether the table holds the second pulse channel.
    pub fn has_channel2(&self) -> (present: bool)
        ensures
            present == self@.channel2,
    {
        self.channel2
    }

    /// Whether the table holds the noise generator.
    pub fn has_noise(&self) -> (present: bool)
        ensures
            present == self@.noise,
    {
        self.noise
    }

    /// The mixer that the table holds. It is switched on.
    pub fn mixer(&self) -> (mixer: Option<Mixer>)
        ensures
            mixer == self@.mixer,
    {
        match self.mixer {
            Some(frequency) => Some(Mixer { frequency, enabled: true }),
            None => None,
        }
    }

    /// Whether the sound chip is switched on.
    pub fn sound_enabled(&self) -> (enabled: bool)
        ensures
            enabled == self@.sound_enabled,
    {
        self.sound_enabled
    }

    /// The systems that run after each update, in the order they were added.
    pub fn post_update(&self) -> (systems: &Vec<System>)
        ensures
            systems@ == self@.post_update,
    {
        &self.post_update
    }

    /// Does to the world what `op` asks, for a setup that holds `held`, and
    /// says whether `op` found what it asked for.
    pub fn perform(&mut self, held: &mut Held, op: Op) -> (found: bool)
        requires
            old(self)@.admits(*old(held), op),
        ensures
            final(self)@ == old(self)@.after(*old(held), op),
            *final(held) == old(self)@.held_after(*old(held), op),
            found == old(self)@.finds(op),
    {
        match op {
            Op::TakeSoundController => {
                let found = self.sound_controller;
                self.sound_controller = false;
                held.sound = if found {
                    Chip::Raw
                } else {
                    Chip::Absent
                };
                found
            },
            Op::EnableSound => {
                self.sound_enabled = true;
                held.sound = Chip::Enabled;
                true
            },
            Op::PublishChannel1 => {
                self.channel1 = true;
                true
            },
            Op::PublishChannel2 => {
                self.channel2 = true;
                true
            },
            Op::PublishNoise => {
                self.noise = true;
                true
            },
            Op::TakeMixerController => {
                let found = self.mixer_controller;
                self.mixer_controller = false;
                held.controller = if found {
                    Controller::Owned
                } else {
                    Controller::Absent
                };
                found
            },
            Op::LeakMixerController => {
                held.controller = Controller::Leaked;
                true
            },
            Op::CreateMixer(frequency) => {
                held.controller = Controller::Lent;
                held.mixer = Some(Mixer { frequency, enabled: false });
                true
            },
            Op::EnableMixer => {
                match held.mixer {
                    Some(mixer) => {
                        held.mixer = Some(Mixer { frequency: mixer.frequency, enabled: true });
                    },
                    None => {},
                }
                true
            },
            Op::PublishMixer => {
                self.mixer = match held.mixer {
                    Some(mixer) => Some(mixer.frequency),
                    None => None,
                };
                held.mixer = None;
                true
            },
        }
    }

    /// Runs `system` once.
    pub fn run_system(&mut self, system: System) -> (serviced: bool)
        ensures
            final(self)@ == old(self)@.after_system(system),
            serviced == system.services_spec(old(self)@.mixer is Some),
    {
        let serviced = system.services(self.mixer.is_some());
        if serviced {
            self.serviced = Ghost((self.serviced@ + 1) as nat);
        }
        serviced
    }

    /// Runs one update: every system of the schedule once, in the order they
    /// were added. Returns how many times the mixer was serviced.
    pub fn update(&mut self) -> (serviced: usize)
        ensures
            final(self)@ == old(self)@.after_update(),
            serviced == old(self)@.services_per_update(),
    {
        let count = self.post_update.len();
        let mut serviced: usize = 0;
        let mut index: usize = 0;
        while index < count
            invariant
                index <= count,
                count == old(self)@.post_update.len(),
                self@ == old(self)@.after_systems(index as nat),
                self@.post_update == old(self)@.post_update,
                self@.mixer == old(self)@.mixer,
                serviced == self@.serviced - old(self)@.serviced,
                serviced == if self@.mixer is Some {
                    index
                } else {
                    0
                },
            decreases count - index,
        {
            let system = self.post_update[index];
            if self.run_system(system) {
                serviced = serviced + 1;
            }
            index = index + 1;
        }
        proof {
            old(self)@.lemma_update_runs_each_system_once();
        }
        serviced
    }
}

} // verus!
