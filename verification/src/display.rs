//! The status screen: two lines on a 128x64 display, with the battery's voltage
//! and the number of devices on the first, and the state of the radio on the
//! second.

use vstd::prelude::*;
use vstd::string::StringExecFns;

use crate::text::push_decimal;

verus! {

broadcast use vstd::string::group_string_axioms;

/// Where the top of the first line is, in pixels.
pub const LINE1_TOP: i32 = 16;

/// Where the top of the second line is, in pixels.
pub const LINE2_TOP: i32 = 48;

/// How long the system is given to start, in seconds.
pub const STARTUP_SECS: u64 = 1;

/// How long a screen stays, in seconds.
pub const REFRESH_SECS: u64 = 5;

#[verifier::external_type_specification]
#[verifier::external_body]
pub struct ExLine<const N: usize>(heapless::String<N>);

/// The text of a line.
pub uninterp spec fn line_text(line: heapless::String<32>) -> Seq<char>;

/// `heapless::String::new`: a line without text.
#[verifier::external_body]
fn empty_line() -> (r: heapless::String<32>)
    ensures
        line_text(r) == Seq::<char>::empty(),
{
    heapless::String::new()
}

/// `heapless::String::push_str`: appends the text, or leaves the line as it was
/// and fails where the line would hold more bytes than its capacity.
#[verifier::external_body]
fn push_str(line: &mut heapless::String<32>, s: &str) -> (r: Result<(), ()>)
    ensures
        match r {
            Ok(_) => {
                &&& vstd::utf8::encode_utf8(line_text(*old(line)) + s@).len() <= 32
                &&& line_text(*final(line)) == line_text(*old(line)) + s@
            },
            Err(_) => {
                &&& vstd::utf8::encode_utf8(line_text(*old(line)) + s@).len() > 32
                &&& *final(line) == *old(line)
            },
        },
{
    line.push_str(s)
}

/// The state of the LoRaWAN connection.
#[derive(Clone, Copy, Debug, PartialEq, Eq, Structural)]
pub enum LoRaWanState {
    /// Attempting to join the network.
    Joining,
    /// Connected to the network.
    Connected,
    /// An error, or disconnected.
    Error,
}

/// A place for a device. It counts only while it is valid.
pub struct DeviceSlot {
    pub valid: bool,
}

/// A screen: its two lines.
pub struct Screen {
    pub line1: heapless::String<32>,
    pub line2: heapless::String<32>,
}

/// The devices that are valid.
pub open spec fn valid_devices(slots: Seq<DeviceSlot>) -> Seq<DeviceSlot> {
    slots.filter(|slot: DeviceSlot| slot.valid)
}

/// A number below a hundred with two digits.
pub open spec fn two_digits(n: nat) -> Seq<char> {
    seq![crate::text::digit_char(n / 10), crate::text::digit_char(n % 10)]
}

/// The first line without the number of devices: millivolts as volts, with two
/// digits behind the point.
pub open spec fn battery_text(battery_mv: u32) -> Seq<char> {
    crate::text::decimal((battery_mv / 1000) as nat) + "."@ + two_digits(
        ((battery_mv % 1000) / 10) as nat,
    ) + "V | Devices: "@
}

/// The first line. A number of devices for which there is no room is left out.
pub open spec fn battery_line(battery_mv: u32, device_count: nat) -> Seq<char> {
    let head = battery_text(battery_mv);
    let count = crate::text::decimal(device_count);
    if head.len() + count.len() <= 32 {
        head + count
    } else {
        head
    }
}

/// The second line.
pub open spec fn state_line(state: LoRaWanState) -> Seq<char> {
    match state {
        LoRaWanState::Joining => "LoRa: Joining"@,
        LoRaWanState::Connected => "LoRa: OK"@,
        LoRaWanState::Error => "LoRa: Error"@,
    }
}

/// The decimal numeral of a number below a power of ten is ASCII, and has no more
/// digits than that power has zeros.
proof fn lemma_decimal(n: nat, digits: nat)
    requires
        digits > 0,
        n < vstd::arithmetic::power::pow(10, digits),
    ensures
        vstd::utf8::is_ascii_chars(crate::text::decimal(n)),
        0 < crate::text::decimal(n).len() <= digits,
    decreases n,
{
    if n >= 10 {
        if digits == 1 {
            vstd::arithmetic::power::lemma_pow1(10);
        } else {
            vstd::arithmetic::power::lemma_pow_adds(10, 1, (digits - 1) as nat);
            vstd::arithmetic::power::lemma_pow1(10);
            lemma_decimal(n / 10, (digits - 1) as nat);
        }
    }
}

/// How many of the devices are valid.
pub fn count_valid(slots: &Vec<DeviceSlot>) -> (r: usize)
    ensures
        r == valid_devices(slots@).len(),
{
    let ghost valid = |slot: DeviceSlot| slot.valid;
    let mut count: usize = 0;
    let mut i: usize = 0;
    while i < slots.len()
        invariant
            i <= slots.len(),
            count <= i,
            count == slots@.take(i as int).filter(valid).len(),
            valid == (|slot: DeviceSlot| slot.valid),
        decreases slots.len() - i,
    {
        proof {
            reveal(Seq::filter);
            assert(slots@.take(i + 1).drop_last() == slots@.take(i as int));
        }
        if slots[i].valid {
            count = count + 1;
        }
        i = i + 1;
    }
    assert(slots@.take(i as int) == slots@);
    count
}

/// The first line of the screen.
pub fn render_battery_line(battery_mv: u32, device_count: usize) -> (r: heapless::String<32>)
    ensures
        line_text(r) == battery_line(battery_mv, device_count as nat),
{
    let mut head: String = String::new();
    let hundredths: u32 = (battery_mv % 1000) / 10;
    push_decimal(&mut head, (battery_mv / 1000) as u64);
    head.append(".");
    if hundredths < 10 {
        head.append("0");
    }
    push_decimal(&mut head, hundredths as u64);
    head.append("V | Devices: ");
    let mut count: String = String::new();
    push_decimal(&mut count, device_count as u64);
    proof {
        reveal_strlit(".");
        reveal_strlit("0");
        reveal_strlit("V | Devices: ");
        reveal_with_fuel(crate::text::decimal, 3);
        assert(head@ =~= battery_text(battery_mv));
        assert(count@ =~= crate::text::decimal(device_count as nat));
        assert(vstd::arithmetic::power::pow(10, 7) == 10_000_000) by {
            reveal_with_fuel(vstd::arithmetic::power::pow, 8);
        }
        lemma_decimal((battery_mv / 1000) as nat, 7);
        assert(vstd::arithmetic::power::pow(10, 20) == 100_000_000_000_000_000_000) by {
            reveal_with_fuel(vstd::arithmetic::power::pow, 21);
        }
        lemma_decimal(device_count as nat, 20);
        vstd::utf8::is_ascii_chars_encode_utf8(head@);
        vstd::utf8::is_ascii_chars_encode_utf8(head@ + count@);
        assert(Seq::<char>::empty() + head@ =~= head@);
    }
    let mut line: heapless::String<32> = empty_line();
    if push_str(&mut line, head.as_str()).is_ok() {
        let _ = push_str(&mut line, count.as_str());
    }
    line
}

/// The second line of the screen.
pub fn render_state_line(state: LoRaWanState) -> (r: heapless::String<32>)
    ensures
        line_text(r) == state_line(state),
{
    let text: &str = match state {
        LoRaWanState::Joining => "LoRa: Joining",
        LoRaWanState::Connected => "LoRa: OK",
        LoRaWanState::Error => "LoRa: Error",
    };
    proof {
        reveal_strlit("LoRa: Joining");
        reveal_strlit("LoRa: OK");
        reveal_strlit("LoRa: Error");
        vstd::utf8::is_ascii_chars_encode_utf8(text@);
        assert(Seq::<char>::empty() + text@ =~= text@);
    }
    let mut line: heapless::String<32> = empty_line();
    let _ = push_str(&mut line, text);
    line
}

/// The screen. A voltage or a list of devices that cannot be had right now is
/// shown as zero.
pub fn render_screen(
    battery_mv: Option<u32>,
    slots: Option<&Vec<DeviceSlot>>,
    state: LoRaWanState,
) -> (r: Screen)
    ensures
        line_text(r.line1) == battery_line(
            match battery_mv {
                Some(mv) => mv,
                None => 0,
            },
            match slots {
                Some(s) => valid_devices(s@).len(),
                None => 0,
            },
        ),
        line_text(r.line2) == state_line(state),
{
    let mv: u32 = match battery_mv {
        Some(mv) => mv,
        None => 0,
    };
    let count: usize = match slots {
        Some(s) => count_valid(s),
        None => 0,
    };
    Screen { line1: render_battery_line(mv, count), line2: render_state_line(state) }
}

/// The state to be shown, given whether one was signalled and what was taken from
/// the signal.
pub open spec fn state_to_show(signaled: bool, taken: Option<LoRaWanState>) -> LoRaWanState {
    match taken {
        Some(state) if signaled => state,
        _ => LoRaWanState::Joining,
    }
}

/// The state to be shown, and the state to be signalled again, given whether one
/// was signalled and what was taken from the signal.
pub fn shown_state(signaled: bool, taken: Option<LoRaWanState>) -> (r: (
    LoRaWanState,
    Option<LoRaWanState>,
))
    ensures
        r.0 == state_to_show(signaled, taken),
        r.1 == (if signaled {
            Some(r.0)
        } else {
            None
        }),
{
    let state: LoRaWanState = if signaled {
        match taken {
            Some(state) => state,
            None => LoRaWanState::Joining,
        }
    } else {
        LoRaWanState::Joining
    };
    if signaled {
        (state, Some(state))
    } else {
        (state, None)
    }
}

/// What the display's task does.
#[derive(Clone, Copy, Debug, PartialEq, Eq, Structural)]
pub enum DisplayAction {
    /// Let the system start.
    Start,
    /// Initialize the display.
    Initialize,
    /// Blank the display.
    Clear,
    /// Draw a screen.
    Draw,
    /// Leave the screen for a while.
    Rest,
    /// End the task.
    Stop,
}

impl DisplayAction {
    /// The action after this one, given whether this one succeeded.
    pub open spec fn next_spec(self, ok: bool) -> DisplayAction {
        match self {
            DisplayAction::Start => DisplayAction::Initialize,
            DisplayAction::Initialize => if ok {
                DisplayAction::Clear
            } else {
                DisplayAction::Stop
            },
            DisplayAction::Clear => DisplayAction::Draw,
            DisplayAction::Draw => DisplayAction::Rest,
            DisplayAction::Rest => DisplayAction::Draw,
            DisplayAction::Stop => DisplayAction::Stop,
        }
    }

    /// The action after this one, given whether this one succeeded. Only a display
    /// that cannot be initialized ends the task.
    pub fn next(self, ok: bool) -> (r: DisplayAction)
        ensures
            r == self.next_spec(ok),
    {
        match self {
            DisplayAction::Start => DisplayAction::Initialize,
            DisplayAction::Initialize => if ok {
                DisplayAction::Clear
            } else {
                DisplayAction::Stop
            },
            DisplayAction::Clear => DisplayAction::Draw,
            DisplayAction::Draw => DisplayAction::Rest,
            DisplayAction::Rest => DisplayAction::Draw,
            DisplayAction::Stop => DisplayAction::Stop,
        }
    }
}

/// Showing a state does not use it up: what is signalled again is shown the next
/// time.
pub proof fn law_state_stays_shown(taken: Option<LoRaWanState>)
    ensures
        state_to_show(true, Some(state_to_show(true, taken))) == state_to_show(true, taken),
{
}

/// The number of devices is on the screen whenever it has nine digits or fewer,
/// and a line never overflows.
pub proof fn law_line_has_room(battery_mv: u32, device_count: nat)
    ensures
        battery_line(battery_mv, device_count).len() <= 32,
        device_count < 1_000_000_000 ==> battery_line(battery_mv, device_count)
            == battery_text(battery_mv) + crate::text::decimal(device_count),
{
    reveal_strlit(".");
    reveal_strlit("V | Devices: ");
    assert(vstd::arithmetic::power::pow(10, 7) == 10_000_000) by {
        reveal_with_fuel(vstd::arithmetic::power::pow, 8);
    }
    lemma_decimal((battery_mv / 1000) as nat, 7);
    if device_count < 1_000_000_000 {
        assert(vstd::arithmetic::power::pow(10, 9) == 1_000_000_000) by {
            reveal_with_fuel(vstd::arithmetic::power::pow, 10);
        }
        lemma_decimal(device_count, 9);
    }
}

/// Each state of the radio has a line of its own.
pub proof fn law_states_are_told_apart(a: LoRaWanState, b: LoRaWanState)
    ensures
        state_line(a) == state_line(b) <==> a == b,
{
    reveal_strlit("LoRa: Joining");
    reveal_strlit("LoRa: OK");
    reveal_strlit("LoRa: Error");
    assert("LoRa: Joining"@.len() == 13 && "LoRa: OK"@.len() == 8 && "LoRa: Error"@.len() == 11);
}

/// Only a display that cannot be initialized ends the task; once it shows
/// screens, no failure does.
pub proof fn law_only_failed_initialization_stops(action: DisplayAction, ok: bool)
    ensures
        action.next_spec(ok) is Stop <==> action is Stop || (action is Initialize && !ok),
        action.next_spec(ok) is Draw || action.next_spec(ok) is Rest <==> action is Clear
            || action is Draw || action is Rest,
{
}

/// The first line tells the voltage: a numeral and two digits, which are
/// returned, denote the whole volts and the hundredths, cut off and not rounded.
pub proof fn law_line_tells_the_voltage(battery_mv: u32) -> (parts: (Seq<char>, Seq<char>))
    ensures
        battery_text(battery_mv) == parts.0 + "."@ + parts.1 + "V | Devices: "@,
        crate::text::is_numeral(parts.0),
        parts.1.len() == 2,
        '0' <= parts.1[0] <= '9' && '0' <= parts.1[1] <= '9',
        100 * crate::text::numeral_value(parts.0) + crate::text::numeral_value(parts.1)
            == battery_mv as int / 10,
{
    let volts = crate::text::decimal((battery_mv / 1000) as nat);
    let hundredths = two_digits(((battery_mv % 1000) / 10) as nat);
    crate::text::law_decimal_denotes_its_number((battery_mv / 1000) as nat);
    reveal_with_fuel(crate::text::numeral_value, 3);
    assert(hundredths.drop_last() == seq![hundredths[0]]);
    assert(seq![hundredths[0]].drop_last() == Seq::<char>::empty());
    (volts, hundredths)
}

/// The number of devices stands behind the voltage wherever both have room on the
/// line: the numeral there, which is returned, denotes it.
pub proof fn law_line_tells_the_devices(battery_mv: u32, device_count: nat) -> (count: Seq<char>)
    ensures
        crate::text::is_numeral(count),
        crate::text::numeral_value(count) == device_count,
        battery_line(battery_mv, device_count) == (if battery_text(battery_mv).len() + count.len()
            <= 32 {
            battery_text(battery_mv) + count
        } else {
            battery_text(battery_mv)
        }),
{
    crate::text::law_decimal_denotes_its_number(device_count);
    crate::text::decimal(device_count)
}

/// Each device counts once if it is valid, and not at all if it is not.
pub proof fn law_valid_devices_count_once(slots: Seq<DeviceSlot>, slot: DeviceSlot)
    ensures
        valid_devices(Seq::empty()).len() == 0,
        valid_devices(slots.push(slot)).len() == valid_devices(slots).len() + (if slot.valid {
            1int
        } else {
            0
        }),
{
    reveal(Seq::filter);
    assert(slots.push(slot).drop_last() == slots);
}

/// What each state of the radio is called.
pub proof fn law_states_are_named(state: LoRaWanState)
    ensures
        state is Joining ==> state_line(state) == "LoRa: Joining"@,
        state is Connected ==> state_line(state) == "LoRa: OK"@,
        state is Error ==> state_line(state) == "LoRa: Error"@,
{
}

/// A state that was signalled and taken is shown as it is; without one, the radio
/// is joining.
pub proof fn law_signalled_state_is_shown(state: LoRaWanState, taken: Option<LoRaWanState>)
    ensures
        state_to_show(true, Some(state)) == state,
        state_to_show(true, None) is Joining,
        state_to_show(false, taken) is Joining,
{
}

/// The task starts, initializes the display, blanks it, and then draws a screen
/// and rests in turn, whether or not a step succeeds.
pub proof fn law_task_draws_in_turn(ok: bool)
    ensures
        DisplayAction::Start.next_spec(ok) is Initialize,
        DisplayAction::Initialize.next_spec(true) is Clear,
        DisplayAction::Clear.next_spec(ok) is Draw,
        DisplayAction::Draw.next_spec(ok) is Rest,
        DisplayAction::Rest.next_spec(ok) is Draw,
        DisplayAction::Stop.next_spec(ok) is Stop,
{
}

/// A screen stays for five seconds, after one second to start, and its lines of
/// twelve pixels stand one below the other within sixty-four.
pub proof fn law_screen_has_its_place_and_time()
    ensures
        STARTUP_SECS == 1,
        REFRESH_SECS == 5,
        LINE1_TOP == 16,
        LINE2_TOP == 48,
        0 <= LINE1_TOP && LINE1_TOP + 12 <= LINE2_TOP && LINE2_TOP + 12 <= 64,
{
}

} // verus!
