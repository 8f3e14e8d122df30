//! The sound plugin: what it adds to the schedule, and how it sets the sound
//! hardware up once every plugin has been built.

use crate::hardware::{Chip, Controller, Frequency, Mixer};
use crate::world::{Held, Op, System, World, WorldView};
use vstd::prelude::*;

verus! {

/// Sets up the sound sub-system.
#[derive(Clone, Copy, Debug, PartialEq, Eq, Structural)]
pub struct AgbSoundPlugin {
    /// If `true`, the setup switches the sound chip on and puts its two pulse
    /// channels and its noise generator into the table.
    pub enable_dmg: bool,
    /// If `Some(..)`, the setup makes the mixer at that rate, switches it on
    /// and puts it into the table. If `None`, the mixer's controller is left
    /// where it is.
    pub mixer_frequency: Option<Frequency>,
}

impl Default for AgbSoundPlugin {
    /// Everything off.
    fn default() -> (plugin: AgbSoundPlugin)
        ensures
            plugin == (AgbSoundPlugin { enable_dmg: false, mixer_frequency: None }),
    {
        AgbSoundPlugin { enable_dmg: false, mixer_frequency: None }
    }
}

impl AgbSoundPlugin {
    /// Where the mixer's part of the setup starts: with taking the mixer's
    /// controller, if a rate is configured.
    pub open spec fn mixer_entry(self) -> Option<Op> {
        if self.mixer_frequency is Some {
            Some(Op::TakeMixerController)
        } else {
            None
        }
    }

    /// The step that follows `last` in the setup. `last` is `None` at the
    /// start; `found` is what `last` reported. The result is `None` when the
    /// setup is over.
    ///
    /// The sound chip comes first: its controller is taken from the table,
    /// switched on, and the two channels and the noise generator are
    /// published. The mixer follows: its controller is taken, promoted, the
    /// mixer is made from it, switched on and published. A part that is not
    /// configured is left out, and so is the rest of a part whose controller
    /// was not in the table.
    pub open spec fn next_op_spec(self, last: Option<Op>, found: bool) -> Option<Op> {
        match last {
            None => if self.enable_dmg {
                Some(Op::TakeSoundController)
            } else {
                self.mixer_entry()
            },
            Some(Op::TakeSoundController) => if found {
                Some(Op::EnableSound)
            } else {
                self.mixer_entry()
            },
            Some(Op::EnableSound) => Some(Op::PublishChannel1),
            Some(Op::PublishChannel1) => Some(Op::PublishChannel2),
            Some(Op::PublishChannel2) => Some(Op::PublishNoise),
            Some(Op::PublishNoise) => self.mixer_entry(),
            Some(Op::TakeMixerController) => if found {
                Some(Op::LeakMixerController)
            } else {
                None
            },
            Some(Op::LeakMixerController) => match self.mixer_frequency {
                Some(frequency) => Some(Op::CreateMixer(frequency)),
                None => None,
            },
            Some(Op::CreateMixer(_)) => Some(Op::EnableMixer),
            Some(Op::EnableMixer) => Some(Op::PublishMixer),
            Some(Op::PublishMixer) => None,
        }
    }

    /// The world after the sound chip's part of the setup.
    pub open spec fn after_dmg(self, world: WorldView) -> WorldView {
        if self.enable_dmg && world.sound_controller {
            WorldView {
                sound_controller: false,
                sound_enabled: true,
                channel1: true,
                channel2: true,
                noise: true,
                ..world
            }
        } else {
            world
        }
    }

    /// The world after the mixer's part of the setup.
    pub open spec fn after_mixer(self, world: WorldView) -> WorldView {
        match self.mixer_frequency {
            Some(frequency) if world.mixer_controller => WorldView {
                mixer_controller: false,
                mixer: Some(Mixer { frequency, enabled: true }),
                ..world
            },
            _ => world,
        }
    }

    /// The world after the setup.
    pub open spec fn after_finish(self, world: WorldView) -> WorldView {
        self.after_mixer(self.after_dmg(world))
    }

    /// The systems that the plugin adds to those that run after each update:
    /// the one that services the mixer, once.
    pub open spec fn systems() -> Seq<System> {
        seq![System::MixerFrame]
    }

    /// The world after the plugin has been built: its systems stand at the
    /// end of the schedule, and nothing else has changed.
    pub open spec fn after_build(self, world: WorldView) -> WorldView {
        WorldView { post_update: world.post_update + Self::systems(), ..world }
    }

    /// With both parts off the setup changes nothing; and while the table
    /// holds no mixer, no number of updates after it changes anything.
    pub proof fn lemma_disabled_is_noop(self, world: WorldView, updates: nat)
        requires
            !self.enable_dmg,
            self.mixer_frequency is None,
        ensures
            self.after_finish(world) == world,
            world.mixer is None ==> self.after_finish(world).after_updates(updates) == world,
    {
        if world.mixer is None {
            world.lemma_updates_without_mixer(updates);
        }
    }

    /// With the sound chip's part on and the chip's controller in the table,
    /// the setup leaves the first channel, the second channel and the noise
    /// generator in the table, each once, as the table is keyed by type; the
    /// chip is on, and its controller is in the table no more.
    pub proof fn lemma_exclusive_activation(self, world: WorldView)
        requires
            self.enable_dmg,
            world.sound_controller,
        ensures
            self.after_finish(world).channel1,
            self.after_finish(world).channel2,
            self.after_finish(world).noise,
            self.after_finish(world).sound_enabled,
            !self.after_finish(world).sound_controller,
    {
    }

    /// With a rate configured and the mixer's controller in the table, the
    /// setup leaves a mixer at that rate in the table, switched on, and the
    /// controller is in the table no more. The system that services the
    /// mixer then does so the first time it runs.
    pub proof fn lemma_mixer_lifecycle(self, world: WorldView, frequency: Frequency)
        requires
            self.mixer_frequency == Some(frequency),
            world.mixer_controller,
        ensures
            self.after_finish(world).mixer == Some(Mixer { frequency, enabled: true }),
            !self.after_finish(world).mixer_controller,
            self.after_finish(world).after_system(System::MixerFrame).serviced
                == world.serviced + 1,
    {
    }

    /// A plugin with a rate configured, built once into an empty schedule
    /// and set up in a world that holds the mixer's controller, has the
    /// mixer serviced exactly once in every update from the first on: after
    /// `updates` of them it was serviced `updates` times more.
    pub proof fn lemma_built_once_services_once(self, world: WorldView, updates: nat)
        requires
            self.mixer_frequency is Some,
            world.mixer_controller,
            world.post_update.len() == 0,
        ensures
            self.after_finish(self.after_build(world)).after_updates(updates).serviced
                == world.serviced + updates,
    {
        let ready = self.after_finish(self.after_build(world));
        assert(ready.post_update =~= seq![System::MixerFrame]);
        ready.lemma_service_cadence(updates);
    }

    /// Without the controllers in the table the setup changes nothing,
    /// whatever is configured.
    pub proof fn lemma_missing_controllers(self, world: WorldView)
        requires
            !world.sound_controller,
            !world.mixer_controller,
        ensures
            self.after_finish(world) == world,
    {
    }

    /// A second run of the setup finds no controller left and changes
    /// nothing.
    pub proof fn lemma_finish_twice(self, world: WorldView)
        ensures
            self.after_finish(self.after_finish(world)) == self.after_finish(world),
    {
    }

    /// The setup keeps the invariant of the table: a mixer in it is switched
    /// on.
    pub proof fn lemma_finish_keeps_wf(self, world: WorldView)
        requires
            world.wf(),
        ensures
            self.after_finish(world).wf(),
    {
    }

    /// How many steps of the setup are left at most when `next` is the one
    /// to take.
    pub open spec fn steps_left(next: Option<Op>) -> nat {
        match next {
            Some(Op::TakeSoundController) => 10,
            Some(Op::EnableSound) => 9,
            Some(Op::PublishChannel1) => 8,
            Some(Op::PublishChannel2) => 7,
            Some(Op::PublishNoise) => 6,
            Some(Op::TakeMixerController) => 5,
            Some(Op::LeakMixerController) => 4,
            Some(Op::CreateMixer(_)) => 3,
            Some(Op::EnableMixer) => 2,
            Some(Op::PublishMixer) => 1,
            None => 0,
        }
    }

    /// Whether `world` and `held` are what a setup that started in `start`
    /// has made and holds when `next` is the step to take.
    pub closed spec fn on_script(
        self,
        start: WorldView,
        next: Option<Op>,
        world: WorldView,
        held: Held,
    ) -> bool {
        let taken = WorldView { sound_controller: false, ..start };
        let enabled = WorldView { sound_enabled: true, ..taken };
        let emptied = WorldView { mixer_controller: false, ..self.after_dmg(start) };
        match next {
            Some(Op::TakeSoundController) => {
                &&& self.enable_dmg
                &&& world == start
                &&& held == Held::nothing()
            },
            Some(Op::EnableSound) => {
                &&& self.enable_dmg
                &&& start.sound_controller
                &&& world == taken
                &&& held == (Held { sound: Chip::Raw, ..Held::nothing() })
            },
            Some(Op::PublishChannel1) => {
                &&& self.enable_dmg
                &&& start.sound_controller
                &&& world == enabled
                &&& held == (Held { sound: Chip::Enabled, ..Held::nothing() })
            },
            Some(Op::PublishChannel2) => {
                &&& self.enable_dmg
                &&& start.sound_controller
                &&& world == (WorldView { channel1: true, ..enabled })
                &&& held == (Held { sound: Chip::Enabled, ..Held::nothing() })
            },
            Some(Op::PublishNoise) => {
                &&& self.enable_dmg
                &&& start.sound_controller
                &&& world == (WorldView { channel1: true, channel2: true, ..enabled })
                &&& held == (Held { sound: Chip::Enabled, ..Held::nothing() })
            },
            Some(Op::TakeMixerController) => {
                &&& self.mixer_frequency is Some
                &&& world == self.after_dmg(start)
                &&& held.controller == Controller::Absent
                &&& held.mixer is None
            },
            Some(Op::LeakMixerController) => {
                &&& self.mixer_frequency is Some
                &&& start.mixer_controller
                &&& world == emptied
                &&& held.controller == Controller::Owned
                &&& held.mixer is None
            },
            Some(Op::CreateMixer(frequency)) => {
                &&& self.mixer_frequency == Some(frequency)
                &&& start.mixer_controller
                &&& world == emptied
                &&& held.controller == Controller::Leaked
                &&& held.mixer is None
            },
            Some(Op::EnableMixer) => {
                &&& self.mixer_frequency is Some
                &&& start.mixer_controller
                &&& world == emptied
                &&& held.mixer == Some(
                    Mixer { frequency: self.mixer_frequency.unwrap(), enabled: false },
                )
            },
            Some(Op::PublishMixer) => {
                &&& self.mixer_frequency is Some
                &&& start.mixer_controller
                &&& world == emptied
                &&& held.mixer == Some(
                    Mixer { frequency: self.mixer_frequency.unwrap(), enabled: true },
                )
            },
            None => world == self.after_finish(start),
        }
    }

    /// A setup that holds nothing yet is on its script in the world it
    /// starts in.
    pub proof fn lemma_script_start(self, start: WorldView, found: bool)
        ensures
            self.on_script(start, self.next_op_spec(None, found), start, Held::nothing()),
    {
    }

    /// A setup on its script can take its next step: the world admits it.
    /// Having taken it, the setup is on its script again, with fewer steps
    /// left. So a host that takes the steps one by one never asks for what
    /// cannot be done, and comes to an end.
    pub proof fn lemma_script_step(self, start: WorldView, op: Op, world: WorldView, held: Held)
        requires
            self.on_script(start, Some(op), world, held),
        ensures
            world.admits(held, op),
            self.on_script(
                start,
                self.next_op_spec(Some(op), world.finds(op)),
                world.after(held, op),
                world.held_after(held, op),
            ),
            Self::steps_left(self.next_op_spec(Some(op), world.finds(op))) < Self::steps_left(
                Some(op),
            ),
    {
    }

    /// A setup on its script with no step left has made the world that
    /// [`AgbSoundPlugin::after_finish`] describes.
    pub proof fn lemma_script_end(self, start: WorldView, world: WorldView, held: Held)
        requires
            self.on_script(start, None, world, held),
        ensures
            world == self.after_finish(start),
    {
    }

    /// The step that follows `last` in the setup, or `None` when the setup is
    /// over. `last` is `None` at the start; `found` is what `last` reported.
    pub fn next_op(&self, last: Option<Op>, found: bool) -> (next: Option<Op>)
        ensures
            next == self.next_op_spec(last, found),
    {
        match last {
            None => {
                if self.enable_dmg {
                    Some(Op::TakeSoundController)
                } else {
                    self.first_mixer_op()
                }
            },
            Some(Op::TakeSoundController) => {
                if found {
                    Some(Op::EnableSound)
                } else {
                    self.first_mixer_op()
                }
            },
            Some(Op::EnableSound) => Some(Op::PublishChannel1),
            Some(Op::PublishChannel1) => Some(Op::PublishChannel2),
            Some(Op::PublishChannel2) => Some(Op::PublishNoise),
            Some(Op::PublishNoise) => self.first_mixer_op(),
            Some(Op::TakeMixerController) => {
                if found {
                    Some(Op::LeakMixerController)
                } else {
                    None
                }
            },
            Some(Op::LeakMixerController) => {
                match self.mixer_frequency {
                    Some(frequency) => Some(Op::CreateMixer(frequency)),
                    None => None,
                }
            },
            Some(Op::CreateMixer(_)) => Some(Op::EnableMixer),
            Some(Op::EnableMixer) => Some(Op::PublishMixer),
            Some(Op::PublishMixer) => None,
        }
    }

    fn first_mixer_op(&self) -> (next: Option<Op>)
        ensures
            next == self.mixer_entry(),
    {
        match self.mixer_frequency {
            Some(_) => Some(Op::TakeMixerController),
            None => None,
        }
    }

    /// The systems that the plugin adds to those that run after each update:
    /// the one that services the mixer, once.
    pub fn post_update_systems(&self) -> (systems: Vec<System>)
        ensures
            systems@ == Self::systems(),
    {
        let mut systems: Vec<System> = Vec::new();
        systems.push(System::MixerFrame);
        systems
    }

    /// Builds the plugin: adds its systems to the schedule. The table is not
    /// touched, and need not hold anything yet.
    pub fn build(&self, world: &mut World)
        ensures
            final(world)@ == self.after_build(old(world)@),
    {
        let systems = self.post_update_systems();
        let mut index: usize = 0;
        while index < systems.len()
            invariant
                index <= systems.len(),
                world@ == (WorldView {
                    post_update: old(world)@.post_update + systems@.take(index as int),
                    ..old(world)@
                }),
            decreases systems.len() - index,
        {
            proof {
                assert(systems@.take(index + 1) == systems@.take(index as int).push(
                    systems[index as int],
                ));
            }
            world.add_post_update_system(systems[index]);
            index = index + 1;
        }
        proof {
            assert(systems@.take(index as int) == systems@);
        }
    }

    /// Sets the sound hardware up. Runs once, after every plugin was built.
    ///
    /// Each part takes its controller out of the table, so a part whose
    /// controller is not there does nothing, and a second run finds nothing
    /// left to do.
    pub fn finish(&self, world: &mut World)
        ensures
            final(world)@ == self.after_finish(old(world)@),
    {
        let mut held = Held::new();
        let mut next = self.next_op(None, false);
        proof {
            self.lemma_script_start(old(world)@, false);
        }
        while next.is_some()
            invariant
                self.on_script(old(world)@, next, world@, held),
            decreases Self::steps_left(next),
        {
            let op = next.unwrap();
            proof {
                self.lemma_script_step(old(world)@, op, world@, held);
            }
            let found = world.perform(&mut held, op);
            next = self.next_op(Some(op), found);
        }
        proof {
            self.lemma_script_end(old(world)@, world@, held);
        }
    }
}

} // verus!
