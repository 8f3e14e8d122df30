use bevy_mod_gba::{Channel, Noise, Sound};

#[derive(Debug, PartialEq)]
struct Register(u16);

impl Register {
    fn set(&mut self, value: u16) {
        self.0 = value;
    }

    fn get(&self) -> u16 {
        self.0
    }
}

#[test]
fn sound_forwards_to_its_handle() {
    let mut raw = Register(1);
    let mut wrapped = Sound::new(Register(1));
    assert_eq!(wrapped.get(), raw.get());
    raw.set(0x8080);
    wrapped.set(0x8080);
    assert_eq!(*wrapped, raw);
    assert_eq!(wrapped.into_inner(), raw);
}

#[test]
fn noise_forwards_to_its_handle() {
    let mut raw = Register(7);
    let mut wrapped = Noise::new(Register(7));
    assert_eq!(wrapped.get(), 7);
    raw.set(9);
    wrapped.set(9);
    assert_eq!(*wrapped, raw);
    assert_eq!(wrapped.into_inner(), Register(9));
}

#[test]
fn channel_one_forwards_to_the_first_handle() {
    let mut channel = Channel::<1, Register, &str>::from_sound(Register(10), "second");
    assert_eq!(channel.get(), 10);
    channel.set(11);
    assert_eq!(*channel, Register(11));
    assert_eq!(channel.into_inner(), (Register(11), "second"));
}

#[test]
fn channel_two_forwards_to_the_second_handle() {
    let mut channel = Channel::<2, &str, Register>::from_sound("first", Register(20));
    assert_eq!(channel.get(), 20);
    channel.set(21);
    assert_eq!(*channel, Register(21));
    assert_eq!(channel.into_inner(), ("first", Register(21)));
}

#[test]
fn both_channels_hold_both_handles() {
    let one = Channel::<1, u8, u16>::from_sound(1, 2);
    let two = Channel::<2, u8, u16>::from_sound(1, 2);
    assert_eq!(*one, 1u8);
    assert_eq!(*two, 2u16);
    assert_eq!(one.into_inner(), two.into_inner());
}
