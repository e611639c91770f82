//! Input channels of the coprocessor and the decoding of its input word.

use vstd::prelude::*;
use vstd::std_specs::convert::FromSpecImpl;

verus! {

/// The named input channels. Each one has a bit in the coprocessor's change
/// and level masks; the bits 13 to 15 of the masks belong to no channel.
#[derive(Copy, Clone, Debug, Eq, PartialEq, Structural)]
pub enum Rp2040Input {
    ButtonHome,
    ButtonMenu,
    ButtonStart,
    ButtonAccept,
    ButtonBack,
    FpgaCdone,
    BatteryCharging,
    ButtonSelect,
    JoystickLeft,
    JoystickPress,
    JoystickDown,
    JoystickUp,
    JoystickRight,
}

impl Rp2040Input {
    /// The channel's bit index in the masks.
    pub open spec fn repr(self) -> u8 {
        match self {
            Rp2040Input::ButtonHome => 0,
            Rp2040Input::ButtonMenu => 1,
            Rp2040Input::ButtonStart => 2,
            Rp2040Input::ButtonAccept => 3,
            Rp2040Input::ButtonBack => 4,
            Rp2040Input::FpgaCdone => 5,
            Rp2040Input::BatteryCharging => 6,
            Rp2040Input::ButtonSelect => 7,
            Rp2040Input::JoystickLeft => 8,
            Rp2040Input::JoystickPress => 9,
            Rp2040Input::JoystickDown => 10,
            Rp2040Input::JoystickUp => 11,
            Rp2040Input::JoystickRight => 12,
        }
    }

    /// The channel with the given bit index, if there is one.
    pub open spec fn spec_from_repr(discriminant: u8) -> Option<Rp2040Input> {
        match discriminant {
            0 => Some(Rp2040Input::ButtonHome),
            1 => Some(Rp2040Input::ButtonMenu),
            2 => Some(Rp2040Input::ButtonStart),
            3 => Some(Rp2040Input::ButtonAccept),
            4 => Some(Rp2040Input::ButtonBack),
            5 => Some(Rp2040Input::FpgaCdone),
            6 => Some(Rp2040Input::BatteryCharging),
            7 => Some(Rp2040Input::ButtonSelect),
            8 => Some(Rp2040Input::JoystickLeft),
            9 => Some(Rp2040Input::JoystickPress),
            10 => Some(Rp2040Input::JoystickDown),
            11 => Some(Rp2040Input::JoystickUp),
            12 => Some(Rp2040Input::JoystickRight),
            _ => None,
        }
    }

    /// The channel with the given bit index, if there is one.
    pub fn from_repr(discriminant: u8) -> (input: Option<Rp2040Input>)
        ensures
            input == Self::spec_from_repr(discriminant),
    {
        match discriminant {
            0 => Some(Rp2040Input::ButtonHome),
            1 => Some(Rp2040Input::ButtonMenu),
            2 => Some(Rp2040Input::ButtonStart),
            3 => Some(Rp2040Input::ButtonAccept),
            4 => Some(Rp2040Input::ButtonBack),
            5 => Some(Rp2040Input::FpgaCdone),
            6 => Some(Rp2040Input::BatteryCharging),
            7 => Some(Rp2040Input::ButtonSelect),
            8 => Some(Rp2040Input::JoystickLeft),
            9 => Some(Rp2040Input::JoystickPress),
            10 => Some(Rp2040Input::JoystickDown),
            11 => Some(Rp2040Input::JoystickUp),
            12 => Some(Rp2040Input::JoystickRight),
            _ => None,
        }
    }

    /// A channel is found again by its own bit index, and only the indices
    /// below 13 name a channel.
    pub proof fn lemma_repr_round_trip(input: Rp2040Input, discriminant: u8)
        ensures
            Self::spec_from_repr(input.repr()) == Some(input),
            Self::spec_from_repr(discriminant) is Some <==> discriminant < 13,
            Self::spec_from_repr(discriminant) matches Some(found) ==> found.repr() == discriminant,
    {
    }
}

impl From<Rp2040Input> for u8 {
    fn from(i: Rp2040Input) -> (index: u8) {
        match i {
            Rp2040Input::ButtonHome => 0,
            Rp2040Input::ButtonMenu => 1,
            Rp2040Input::ButtonStart => 2,
            Rp2040Input::ButtonAccept => 3,
            Rp2040Input::ButtonBack => 4,
            Rp2040Input::FpgaCdone => 5,
            Rp2040Input::BatteryCharging => 6,
            Rp2040Input::ButtonSelect => 7,
            Rp2040Input::JoystickLeft => 8,
            Rp2040Input::JoystickPress => 9,
            Rp2040Input::JoystickDown => 10,
            Rp2040Input::JoystickUp => 11,
            Rp2040Input::JoystickRight => 12,
        }
    }
}

impl FromSpecImpl<Rp2040Input> for u8 {
    open spec fn obeys_from_spec() -> bool {
        true
    }

    open spec fn from_spec(i: Rp2040Input) -> u8 {
        i.repr()
    }
}

/// A change on one input channel.
#[derive(Copy, Clone, Debug, Eq, PartialEq, Structural)]
pub struct Rp2040InputEvent {
    pub input: Rp2040Input,
    pub is_released: bool,
}

impl Rp2040InputEvent {
    pub fn new(input: Rp2040Input, is_released: bool) -> (event: Self)
        ensures
            event == (Rp2040InputEvent { input, is_released }),
    {
        Self { input, is_released }
    }
}

/// Whether bit `idx` of `mask` is set.
pub open spec fn bit_set(mask: u16, idx: u8) -> bool {
    ((mask >> idx) & 0x1) != 0
}

/// The change mask of an input word: its upper half.
pub open spec fn change_mask(state: u32) -> u16 {
    (state >> 16) as u16
}

/// The level mask of an input word: its lower half.
pub open spec fn level_mask(state: u32) -> u16 {
    (state & 0xffff) as u16
}

/// The input word that the coprocessor sent as four bytes, lowest first.
pub open spec fn word_of(buf: [u8; 4]) -> u32 {
    (buf[0] as u32) | ((buf[1] as u32) << 8) | ((buf[2] as u32) << 16) | ((buf[3] as u32) << 24)
}

/// The event that bit `idx` stands for: none where the bit did not change or
/// belongs to no channel, else the channel with its level, a level of zero
/// meaning released.
pub open spec fn event_at(change: u16, level: u16, idx: u8) -> Option<Rp2040InputEvent> {
    if bit_set(change, idx) {
        match Rp2040Input::spec_from_repr(idx) {
            Some(input) => Some(Rp2040InputEvent { input, is_released: !bit_set(level, idx) }),
            None => None,
        }
    } else {
        None
    }
}

/// The events of the bits below `upto`, in ascending order of their index.
pub open spec fn decoded(change: u16, level: u16, upto: nat) -> Seq<Rp2040InputEvent>
    decreases upto,
{
    if upto == 0 {
        Seq::empty()
    } else {
        let earlier = decoded(change, level, (upto - 1) as nat);
        match event_at(change, level, (upto - 1) as u8) {
            Some(event) => earlier.push(event),
            None => earlier,
        }
    }
}

/// What decoding yields, said without recursion: every event stands for a
/// changed bit of its own channel and tells that bit's level; the events come
/// in strictly ascending order of their bits, so none comes twice; and no
/// changed bit that belongs to a channel is left out.
pub proof fn lemma_decoded_events(change: u16, level: u16, upto: nat)
    requires
        upto <= 16,
    ensures
        forall|k: int|
            0 <= k < decoded(change, level, upto).len() ==> {
                let event = #[trigger] decoded(change, level, upto)[k];
                &&& event.input.repr() < upto
                &&& bit_set(change, event.input.repr())
                &&& event.is_released == !bit_set(level, event.input.repr())
            },
        forall|a: int, b: int|
            0 <= a < b < decoded(change, level, upto).len() ==> (#[trigger] decoded(
                change,
                level,
                upto,
            )[a]).input.repr() < (#[trigger] decoded(change, level, upto)[b]).input.repr(),
        forall|idx: u8|
            idx < upto && #[trigger] bit_set(change, idx) && Rp2040Input::spec_from_repr(idx) is Some
                ==> exists|k: int|
                0 <= k < decoded(change, level, upto).len() && (#[trigger] decoded(
                    change,
                    level,
                    upto,
                )[k]).input.repr() == idx,
    decreases upto,
{
    if upto > 0 {
        let last = (upto - 1) as u8;
        let earlier = decoded(change, level, (upto - 1) as nat);
        let all = decoded(change, level, upto);
        lemma_decoded_events(change, level, (upto - 1) as nat);
        match event_at(change, level, last) {
            Some(event) => {
                Rp2040Input::lemma_repr_round_trip(event.input, last);
                assert(all == earlier.push(event));
                assert forall|idx: u8|
                    idx < upto && #[trigger] bit_set(change, idx) && Rp2040Input::spec_from_repr(
                        idx,
                    ) is Some implies exists|k: int|
                    0 <= k < all.len() && (#[trigger] all[k]).input.repr() == idx by {
                    if idx == last {
                        assert(all[earlier.len() as int].input.repr() == idx);
                    } else {
                        let k = choose|k: int|
                            0 <= k < earlier.len() && (#[trigger] earlier[k]).input.repr() == idx;
                        assert(all[k].input.repr() == idx);
                    }
                }
            },
            None => {
                assert(all == earlier);
            },
        }
    }
}

/// Puts the four bytes of an input word together, lowest byte first.
pub fn input_word(buf: [u8; 4]) -> (state: u32)
    ensures
        state == word_of(buf),
        level_mask(state) == buf[0] as u16 | (buf[1] as u16) << 8,
        change_mask(state) == buf[2] as u16 | (buf[3] as u16) << 8,
{
    let b0 = buf[0];
    let b1 = buf[1];
    let b2 = buf[2];
    let b3 = buf[3];
    let state = (b0 as u32) | ((b1 as u32) << 8) | ((b2 as u32) << 16) | ((b3 as u32) << 24);
    assert(((state & 0xffff) as u16) == b0 as u16 | (b1 as u16) << 8
        && ((state >> 16) as u16) == b2 as u16 | (b3 as u16) << 8) by (bit_vector)
        requires
            state == (b0 as u32) | ((b1 as u32) << 8) | ((b2 as u32) << 16) | ((b3 as u32) << 24),
    ;
    state
}

/// Decodes an input word: one event for each changed bit that belongs to a
/// channel, in ascending order of the bits. Changed bits that belong to no
/// channel are passed over.
pub fn decode_inputs(state: u32) -> (events: Vec<Rp2040InputEvent>)
    ensures
        events@ == decoded(change_mask(state), level_mask(state), 16),
{
    assert((state >> 16) <= 0xffff && (state & 0xffff) <= 0xffff) by (bit_vector);
    let interrupt = (state >> 16) as u16;
    let values = (state & 0xffff) as u16;

    let mut events = Vec::new();
    let mut idx: u8 = 0;
    while idx < 16
        invariant
            idx <= 16,
            events@ == decoded(interrupt, values, idx as nat),
        decreases 16 - idx,
    {
        if ((interrupt >> idx) & 0x1) != 0 {
            if let Some(input) = Rp2040Input::from_repr(idx) {
                let is_released = ((values >> idx) & 0x1) == 0;
                events.push(Rp2040InputEvent::new(input, is_released));
            }
        }
        idx += 1;
    }
    events
}

} // verus!
