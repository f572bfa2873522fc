//! The state differ: turns two snapshots into the command stream that
//! updates exactly the signals that changed.

use vstd::prelude::*;
use crate::komsi::build_komsi_command;
use crate::komsi::build_komsi_command_eol;
use crate::komsi::build_komsi_command_u8;
use crate::komsi::command_frame;
use crate::komsi::command_codes_are_distinct;
use crate::komsi::command_codes_are_letters;
use crate::komsi::decimal_digits;
use crate::komsi::decimal_digits_are_digits;
use crate::komsi::is_command_code;
use crate::komsi::is_digit;
use crate::komsi::KomsiCommandKind;
use crate::komsi::KOMSI_EOL;
use crate::vehicle::signal_after_update;
use crate::vehicle::signals_determine_state;
use crate::vehicle::VehicleState;

verus! {

/// The number of signals.
pub const SIGNAL_COUNT: usize = 16;

/// The order in which signals are compared and their frames are sent.
pub open spec fn signal_order() -> Seq<KomsiCommandKind> {
    seq![
        KomsiCommandKind::Ignition,
        KomsiCommandKind::Engine,
        KomsiCommandKind::PassengerDoorsOpen,
        KomsiCommandKind::FixingBrake,
        KomsiCommandKind::Indicator,
        KomsiCommandKind::LightsWarning,
        KomsiCommandKind::LightsMain,
        KomsiCommandKind::LightsStopRequest,
        KomsiCommandKind::LightsStopBrake,
        KomsiCommandKind::LightsFrontDoor,
        KomsiCommandKind::LightsSecondDoor,
        KomsiCommandKind::LightsHighBeam,
        KomsiCommandKind::BatteryLight,
        KomsiCommandKind::Fuel,
        KomsiCommandKind::Speed,
        KomsiCommandKind::MaxSpeed,
    ]
}

/// Whether a signal is sent: under `force` always, else when its value
/// changed.
pub open spec fn is_sent(
    old: VehicleState,
    new: VehicleState,
    force: bool,
    kind: KomsiCommandKind,
) -> bool {
    force || old.signal(kind) != new.signal(kind)
}

/// `is_sent` as a predicate on signals.
pub open spec fn sent_filter(old: VehicleState, new: VehicleState, force: bool) -> spec_fn(
    KomsiCommandKind,
) -> bool {
    |kind: KomsiCommandKind| is_sent(old, new, force, kind)
}

/// The signals that are sent, as a set.
pub open spec fn changed_set(old: VehicleState, new: VehicleState, force: bool) -> Set<
    KomsiCommandKind,
> {
    Set::new(sent_filter(old, new, force))
}

/// The signals that are sent, in the order of their frames.
pub open spec fn sent_kinds(old: VehicleState, new: VehicleState, force: bool) -> Seq<
    KomsiCommandKind,
> {
    signal_order().filter(sent_filter(old, new, force))
}

/// The frames of the given signals, one after the other, with the values
/// that the snapshot holds.
pub open spec fn frames_of(kinds: Seq<KomsiCommandKind>, state: VehicleState) -> Seq<u8>
    decreases kinds.len(),
{
    if kinds.len() == 0 {
        Seq::empty()
    } else {
        frames_of(kinds.drop_last(), state) + command_frame(
            kinds.last(),
            state.signal(kinds.last()),
        )
    }
}

/// The command stream for the step from `old` to `new`: the frames of the
/// signals that are sent, then the end-of-transmission marker; nothing at
/// all where no signal is sent.
pub open spec fn diff_bytes(old: VehicleState, new: VehicleState, force: bool) -> Seq<u8> {
    let kinds = sent_kinds(old, new, force);
    if kinds.len() == 0 {
        Seq::empty()
    } else {
        frames_of(kinds, new).push(KOMSI_EOL)
    }
}

/// What one signal adds to the stream: its frame where it is sent, nothing
/// where it is not.
pub open spec fn change_frame(
    old_value: nat,
    new_value: nat,
    kind: KomsiCommandKind,
    force: bool,
) -> Seq<u8> {
    if old_value != new_value || force {
        command_frame(kind, new_value)
    } else {
        Seq::empty()
    }
}

/// The signals that are sent among the first `n` of the order.
pub open spec fn sent_prefix(old: VehicleState, new: VehicleState, force: bool, n: int) -> Seq<
    KomsiCommandKind,
> {
    signal_order().take(n).filter(sent_filter(old, new, force))
}

/// Looking at one more signal of the order adds that signal where it is
/// sent, and its frame to the stream.
proof fn lemma_prefix_step(old: VehicleState, new: VehicleState, force: bool, n: int)
    requires
        0 <= n < 16,
    ensures
        sent_prefix(old, new, force, n + 1) == if is_sent(old, new, force, signal_order()[n]) {
            sent_prefix(old, new, force, n).push(signal_order()[n])
        } else {
            sent_prefix(old, new, force, n)
        },
        frames_of(sent_prefix(old, new, force, n + 1), new) == frames_of(
            sent_prefix(old, new, force, n),
            new,
        ) + change_frame(
            old.signal(signal_order()[n]),
            new.signal(signal_order()[n]),
            signal_order()[n],
            force,
        ),
{
    let order = signal_order();
    let kind = order[n];
    let before = sent_prefix(old, new, force, n);
    order.lemma_take_succ_push(n);
    order.take(n).lemma_filter_push(kind, sent_filter(old, new, force));
    if is_sent(old, new, force, kind) {
        assert(before.push(kind).drop_last() =~= before);
    } else {
        assert(frames_of(before, new) + Seq::<u8>::empty() =~= frames_of(before, new));
    }
}

/// Before any signal was looked at nothing is sent; after all sixteen the
/// prefix is the whole list.
proof fn lemma_prefix_ends(old: VehicleState, new: VehicleState, force: bool)
    ensures
        sent_prefix(old, new, force, 0).len() == 0,
        sent_prefix(old, new, force, 16) == sent_kinds(old, new, force),
{
    let order = signal_order();
    reveal(Seq::filter);
    assert(order.take(0).len() == 0);
    assert(order.take(16) =~= order);
}

/// Frames are never empty: a stream of frames is empty exactly when it
/// holds no frame.
proof fn lemma_frames_len(kinds: Seq<KomsiCommandKind>, state: VehicleState)
    ensures
        frames_of(kinds, state).len() >= 2 * kinds.len(),
        kinds.len() == 0 ==> frames_of(kinds, state).len() == 0,
    decreases kinds.len(),
{
    if kinds.len() > 0 {
        lemma_frames_len(kinds.drop_last(), state);
        decimal_digits_are_digits(state.signal(kinds.last()));
    }
}

/// Nothing is sent exactly when nothing is forced and the two snapshots are
/// equal.
proof fn lemma_nothing_sent_iff_unchanged(old: VehicleState, new: VehicleState, force: bool)
    ensures
        sent_kinds(old, new, force).len() == 0 <==> (!force && old == new),
{
    let order = signal_order();
    let pred = sent_filter(old, new, force);
    if sent_kinds(old, new, force).len() == 0 {
        signal_order_is_complete();
        assert forall|kind: KomsiCommandKind| !#[trigger] is_sent(old, new, force, kind) by {
            assert(order.contains(kind));
            let i = choose|i: int| 0 <= i < order.len() && order[i] == kind;
            if pred(order[i]) {
                order.lemma_filter_contains(pred, i);
            }
        }
        // no signal is sent, so nothing was forced
        assert(!is_sent(old, new, force, KomsiCommandKind::Ignition));
        assert forall|kind: KomsiCommandKind| old.signal(kind) == new.signal(kind) by {
            assert(!is_sent(old, new, force, kind));
        }
        signals_determine_state(old, new);
    } else {
        order.lemma_filter_pred(pred, 0);
    }
}

/// The order names every signal, and none twice.
pub proof fn signal_order_is_complete()
    ensures
        signal_order().len() == 16,
        signal_order().no_duplicates(),
        forall|kind: KomsiCommandKind| #[trigger] signal_order().contains(kind),
{
    let order = signal_order();
    assert forall|kind: KomsiCommandKind| #[trigger] order.contains(kind) by {
        let i: int = match kind {
            KomsiCommandKind::Ignition => 0,
            KomsiCommandKind::Engine => 1,
            KomsiCommandKind::PassengerDoorsOpen => 2,
            KomsiCommandKind::FixingBrake => 3,
            KomsiCommandKind::Indicator => 4,
            KomsiCommandKind::LightsWarning => 5,
            KomsiCommandKind::LightsMain => 6,
            KomsiCommandKind::LightsStopRequest => 7,
            KomsiCommandKind::LightsStopBrake => 8,
            KomsiCommandKind::LightsFrontDoor => 9,
            KomsiCommandKind::LightsSecondDoor => 10,
            KomsiCommandKind::LightsHighBeam => 11,
            KomsiCommandKind::BatteryLight => 12,
            KomsiCommandKind::Fuel => 13,
            KomsiCommandKind::Speed => 14,
            KomsiCommandKind::MaxSpeed => 15,
        };
        assert(order[i] == kind);
    }
}

/// Appends the frame of a category signal where it is sent.
fn handle_u8_field_change(
    old_value: u8,
    new_value: u8,
    command_kind: KomsiCommandKind,
    force: bool,
    buffer: &mut Vec<u8>,
)
    ensures
        final(buffer)@ == old(buffer)@ + change_frame(
            old_value as nat,
            new_value as nat,
            command_kind,
            force,
        ),
{
    if (old_value != new_value) || force {
        let mut b = build_komsi_command_u8(command_kind, new_value);
        buffer.append(&mut b);
    } else {
        assert(buffer@ =~= old(buffer)@ + Seq::<u8>::empty());
    }
}

/// Appends the frame of a magnitude signal where it is sent.
fn handle_u32_field_change(
    old_value: u32,
    new_value: u32,
    command_kind: KomsiCommandKind,
    force: bool,
    buffer: &mut Vec<u8>,
)
    ensures
        final(buffer)@ == old(buffer)@ + change_frame(
            old_value as nat,
            new_value as nat,
            command_kind,
            force,
        ),
{
    if (old_value != new_value) || force {
        let mut b = build_komsi_command(command_kind, new_value);
        buffer.append(&mut b);
    } else {
        assert(buffer@ =~= old(buffer)@ + Seq::<u8>::empty());
    }
}

/// Encodes the step from `old` to `new`: one frame for each signal whose
/// value changed (for every signal under `force`), in the fixed order, and
/// the end-of-transmission marker after them. Where nothing is sent the
/// result is empty.
pub fn compare_vehicle_states(old: &VehicleState, new: &VehicleState, force: bool) -> (buffer: Vec<
    u8,
>)
    ensures
        buffer@ == diff_bytes(*old, *new, force),
        buffer@.len() == 0 <==> (!force && *old == *new),
{
    let mut buffer: Vec<u8> = Vec::new();
    let mut index: usize = 0;
    proof {
        lemma_prefix_ends(*old, *new, force);
        assert(buffer@ =~= frames_of(sent_prefix(*old, *new, force, 0), *new));
    }
    while index < SIGNAL_COUNT
        invariant
            index <= SIGNAL_COUNT,
            buffer@ == frames_of(sent_prefix(*old, *new, force, index as int), *new),
        decreases SIGNAL_COUNT - index,
    {
        proof {
            lemma_prefix_step(*old, *new, force, index as int);
        }
        match signal_at(index) {
            Some(kind) => {
                let old_value = old.value_of(kind);
                let new_value = new.value_of(kind);
                if kind.is_magnitude() {
                    handle_u32_field_change(old_value, new_value, kind, force, &mut buffer);
                } else {
                    handle_u8_field_change(old_value as u8, new_value as u8, kind, force, &mut buffer);
                }
            },
            None => {},
        }
        index += 1;
    }
    proof {
        lemma_prefix_ends(*old, *new, force);
        lemma_nothing_sent_iff_unchanged(*old, *new, force);
        lemma_frames_len(sent_kinds(*old, *new, force), *new);
    }
    if buffer.len() > 0 {
        let mut b = build_komsi_command_eol();
        buffer.append(&mut b);
    }
    buffer
}

/// One signal that is sent, with its value before and after.
#[derive(Clone, Copy, Debug, PartialEq, Eq, Structural)]
pub struct SignalChange {
    pub kind: KomsiCommandKind,
    pub old_value: u32,
    pub new_value: u32,
}

/// The change of one signal between two snapshots.
pub open spec fn change_of(old: VehicleState, new: VehicleState, kind: KomsiCommandKind) -> SignalChange {
    SignalChange {
        kind,
        old_value: old.signal(kind) as u32,
        new_value: new.signal(kind) as u32,
    }
}

/// The changes of the given signals, in their order.
pub open spec fn changes_of(
    old: VehicleState,
    new: VehicleState,
    kinds: Seq<KomsiCommandKind>,
) -> Seq<SignalChange> {
    Seq::new(kinds.len(), |i: int| change_of(old, new, kinds[i]))
}

/// The signal at a place of the fixed order; `None` past its end.
pub fn signal_at(index: usize) -> (kind: Option<KomsiCommandKind>)
    ensures
        index < SIGNAL_COUNT ==> kind == Some(signal_order()[index as int]),
        index >= SIGNAL_COUNT ==> kind.is_none(),
{
    match index {
        0 => Some(KomsiCommandKind::Ignition),
        1 => Some(KomsiCommandKind::Engine),
        2 => Some(KomsiCommandKind::PassengerDoorsOpen),
        3 => Some(KomsiCommandKind::FixingBrake),
        4 => Some(KomsiCommandKind::Indicator),
        5 => Some(KomsiCommandKind::LightsWarning),
        6 => Some(KomsiCommandKind::LightsMain),
        7 => Some(KomsiCommandKind::LightsStopRequest),
        8 => Some(KomsiCommandKind::LightsStopBrake),
        9 => Some(KomsiCommandKind::LightsFrontDoor),
        10 => Some(KomsiCommandKind::LightsSecondDoor),
        11 => Some(KomsiCommandKind::LightsHighBeam),
        12 => Some(KomsiCommandKind::BatteryLight),
        13 => Some(KomsiCommandKind::Fuel),
        14 => Some(KomsiCommandKind::Speed),
        15 => Some(KomsiCommandKind::MaxSpeed),
        _ => None,
    }
}

/// Lists what `compare_vehicle_states` sends for the same arguments: each
/// signal that is sent, in the order of the frames, with its old and its
/// new value. This is what a caller reports when it is asked to be
/// verbose.
pub fn list_changes(old: &VehicleState, new: &VehicleState, force: bool) -> (changes: Vec<
    SignalChange,
>)
    ensures
        changes@ == changes_of(*old, *new, sent_kinds(*old, *new, force)),
{
    let mut changes: Vec<SignalChange> = Vec::new();
    let mut index: usize = 0;
    proof {
        lemma_prefix_ends(*old, *new, force);
        assert(changes@ =~= changes_of(*old, *new, sent_prefix(*old, *new, force, 0)));
    }
    while index < SIGNAL_COUNT
        invariant
            index <= SIGNAL_COUNT,
            changes@ == changes_of(*old, *new, sent_prefix(*old, *new, force, index as int)),
        decreases SIGNAL_COUNT - index,
    {
        proof {
            lemma_prefix_step(*old, *new, force, index as int);
        }
        match signal_at(index) {
            Some(kind) => {
                let old_value = old.value_of(kind);
                let new_value = new.value_of(kind);
                if old_value != new_value || force {
                    changes.push(SignalChange { kind, old_value, new_value });
                    assert(changes@ =~= changes_of(
                        *old,
                        *new,
                        sent_prefix(*old, *new, force, index + 1),
                    ));
                }
            },
            None => {},
        }
        index += 1;
    }
    proof {
        lemma_prefix_ends(*old, *new, force);
    }
    changes
}

/// `is_command_code` as a predicate on bytes.
pub open spec fn command_code_filter() -> spec_fn(u8) -> bool {
    |b: u8| is_command_code(b)
}

/// The number of frames in a command stream: every frame starts with a
/// command code and holds no other.
pub open spec fn frame_count(bytes: Seq<u8>) -> nat {
    bytes.filter(command_code_filter()).len()
}

/// 1 where two values differ, 0 where they are equal.
pub open spec fn differs(a: nat, b: nat) -> nat {
    if a != b {
        1
    } else {
        0
    }
}

/// The number of fields in which two snapshots differ.
pub open spec fn differing_fields(a: VehicleState, b: VehicleState) -> nat {
    differs(a.ignition as nat, b.ignition as nat) + differs(a.engine as nat, b.engine as nat)
        + differs(a.doors as nat, b.doors as nat) + differs(
        a.fixing_brake as nat,
        b.fixing_brake as nat,
    ) + differs(a.indicator as nat, b.indicator as nat) + differs(
        a.lights_warning as nat,
        b.lights_warning as nat,
    ) + differs(a.lights_main as nat, b.lights_main as nat) + differs(
        a.lights_stop_request as nat,
        b.lights_stop_request as nat,
    ) + differs(a.lights_stop_brake as nat, b.lights_stop_brake as nat) + differs(
        a.lights_front_door as nat,
        b.lights_front_door as nat,
    ) + differs(a.lights_second_door as nat, b.lights_second_door as nat) + differs(
        a.lights_high_beam as nat,
        b.lights_high_beam as nat,
    ) + differs(a.battery_light as nat, b.battery_light as nat) + differs(
        a.fuel as nat,
        b.fuel as nat,
    ) + differs(a.speed as nat, b.speed as nat) + differs(a.maxspeed as nat, b.maxspeed as nat)
}

/// Decimal text holds no command code.
proof fn lemma_digits_hold_no_code(n: nat)
    ensures
        frame_count(decimal_digits(n)) == 0,
    decreases n,
{
    let pred = command_code_filter();
    let none = Seq::<u8>::empty();
    none.lemma_filter_len(pred);
    if n < 10 {
        let d = (48 + n) as u8;
        none.lemma_filter_push(d, pred);
        assert(decimal_digits(n) =~= none.push(d));
    } else {
        lemma_digits_hold_no_code(n / 10);
        decimal_digits(n / 10).lemma_filter_push((48 + n % 10) as u8, pred);
    }
}

/// A stream of frames holds as many command codes as frames.
proof fn lemma_frame_count_of_frames(kinds: Seq<KomsiCommandKind>, state: VehicleState)
    ensures
        frame_count(frames_of(kinds, state)) == kinds.len(),
    decreases kinds.len(),
{
    let pred = command_code_filter();
    let none = Seq::<u8>::empty();
    none.lemma_filter_len(pred);
    if kinds.len() > 0 {
        let kind = kinds.last();
        let value = state.signal(kind);
        let head = seq![kind.spec_code()];
        lemma_frame_count_of_frames(kinds.drop_last(), state);
        lemma_digits_hold_no_code(value);
        command_codes_are_letters(kind);
        none.lemma_filter_push(kind.spec_code(), pred);
        assert(head =~= none.push(kind.spec_code()));
        Seq::filter_distributes_over_add(head, decimal_digits(value), pred);
        Seq::filter_distributes_over_add(
            frames_of(kinds.drop_last(), state),
            command_frame(kind, value),
            pred,
        );
    }
}

/// Every byte of a stream of frames is a digit or the command code of one
/// of its signals, and the code of each of its signals occurs in it.
proof fn lemma_frames_bytes(kinds: Seq<KomsiCommandKind>, state: VehicleState)
    ensures
        forall|i: int|
            0 <= i < frames_of(kinds, state).len() ==> is_digit(#[trigger] frames_of(kinds, state)[i])
                || exists|j: int|
                0 <= j < kinds.len() && (#[trigger] kinds[j]).spec_code() == frames_of(
                    kinds,
                    state,
                )[i],
        forall|j: int|
            0 <= j < kinds.len() ==> frames_of(kinds, state).contains(
                (#[trigger] kinds[j]).spec_code(),
            ),
    decreases kinds.len(),
{
    if kinds.len() > 0 {
        let rest = kinds.drop_last();
        let kind = kinds.last();
        let front = frames_of(rest, state);
        let frame = command_frame(kind, state.signal(kind));
        let all = frames_of(kinds, state);
        lemma_frames_bytes(rest, state);
        decimal_digits_are_digits(state.signal(kind));
        assert forall|i: int| 0 <= i < all.len() implies is_digit(#[trigger] all[i]) || exists|
            j: int,
        |
            0 <= j < kinds.len() && (#[trigger] kinds[j]).spec_code() == all[i] by {
            if i < front.len() {
                assert(all[i] == front[i]);
                if !is_digit(front[i]) {
                    let j = choose|j: int|
                        0 <= j < rest.len() && (#[trigger] rest[j]).spec_code() == front[i];
                    assert(kinds[j] == rest[j]);
                }
            } else if i == front.len() {
                assert(all[i] == frame[0]);
                assert(kinds[kinds.len() - 1].spec_code() == all[i]);
            } else {
                assert(all[i] == frame[i - front.len()]);
                assert(frame[i - front.len()] == decimal_digits(state.signal(kind))[i - front.len()
                    - 1]);
            }
        }
        assert forall|j: int| 0 <= j < kinds.len() implies all.contains(
            (#[trigger] kinds[j]).spec_code(),
        ) by {
            if j < rest.len() {
                assert(kinds[j] == rest[j]);
                let i = choose|i: int|
                    0 <= i < front.len() && front[i] == rest[j].spec_code();
                assert(all[i] == front[i]);
            } else {
                assert(all[front.len() as int] == frame[0]);
            }
        }
    }
}

/// Two predicates that agree on the items of a list keep the same items.
proof fn lemma_filter_agrees(
    items: Seq<KomsiCommandKind>,
    p: spec_fn(KomsiCommandKind) -> bool,
    q: spec_fn(KomsiCommandKind) -> bool,
)
    requires
        forall|i: int| 0 <= i < items.len() ==> p(#[trigger] items[i]) == q(items[i]),
    ensures
        items.filter(p) == items.filter(q),
    decreases items.len(),
{
    reveal(Seq::filter);
    if items.len() > 0 {
        let rest = items.drop_last();
        assert forall|i: int| 0 <= i < rest.len() implies p(#[trigger] rest[i]) == q(rest[i]) by {
            assert(rest[i] == items[i]);
        }
        lemma_filter_agrees(rest, p, q);
        assert(p(items[items.len() - 1]) == q(items[items.len() - 1]));
    }
}

/// The frames of a list of signals depend only on the values of those
/// signals.
proof fn lemma_frames_agree(kinds: Seq<KomsiCommandKind>, a: VehicleState, b: VehicleState)
    requires
        forall|i: int| 0 <= i < kinds.len() ==> a.signal(#[trigger] kinds[i]) == b.signal(kinds[i]),
    ensures
        frames_of(kinds, a) == frames_of(kinds, b),
    decreases kinds.len(),
{
    if kinds.len() > 0 {
        let rest = kinds.drop_last();
        assert forall|i: int| 0 <= i < rest.len() implies a.signal(#[trigger] rest[i]) == b.signal(
            rest[i],
        ) by {
            assert(rest[i] == kinds[i]);
        }
        lemma_frames_agree(rest, a, b);
        assert(a.signal(kinds[kinds.len() - 1]) == b.signal(kinds[kinds.len() - 1]));
    }
}

/// Under `force` the first `n` signals of the order are all sent.
proof fn lemma_forced_prefix(old: VehicleState, new: VehicleState, n: int)
    requires
        0 <= n <= 16,
    ensures
        sent_prefix(old, new, true, n) == signal_order().take(n),
    decreases n,
{
    if n == 0 {
        lemma_prefix_ends(old, new, true);
        assert(sent_prefix(old, new, true, 0) =~= signal_order().take(0));
    } else {
        lemma_forced_prefix(old, new, n - 1);
        lemma_prefix_step(old, new, true, n - 1);
        signal_order().lemma_take_succ_push(n - 1);
    }
}

/// Looking at one more signal of the order raises the number of signals
/// sent by one where its value differs.
proof fn lemma_count_step(
    old: VehicleState,
    new: VehicleState,
    n: int,
    kind: KomsiCommandKind,
    before: nat,
)
    requires
        0 <= n < 16,
        signal_order()[n] == kind,
        sent_prefix(old, new, false, n).len() == before,
    ensures
        sent_prefix(old, new, false, n + 1).len() == before + differs(
            old.signal(kind),
            new.signal(kind),
        ),
{
    lemma_prefix_step(old, new, false, n);
}

/// Without `force`, the number of signals sent is the number of fields
/// that differ.
proof fn lemma_sent_count(old: VehicleState, new: VehicleState)
    ensures
        sent_kinds(old, new, false).len() == differing_fields(old, new),
{
    lemma_prefix_ends(old, new, false);
    let c0: nat = 0;
    lemma_count_step(old, new, 0, KomsiCommandKind::Ignition, c0);
    let c1: nat = c0 + differs(old.ignition as nat, new.ignition as nat);
    lemma_count_step(old, new, 1, KomsiCommandKind::Engine, c1);
    let c2: nat = c1 + differs(old.engine as nat, new.engine as nat);
    lemma_count_step(old, new, 2, KomsiCommandKind::PassengerDoorsOpen, c2);
    let c3: nat = c2 + differs(old.doors as nat, new.doors as nat);
    lemma_count_step(old, new, 3, KomsiCommandKind::FixingBrake, c3);
    let c4: nat = c3 + differs(old.fixing_brake as nat, new.fixing_brake as nat);
    lemma_count_step(old, new, 4, KomsiCommandKind::Indicator, c4);
    let c5: nat = c4 + differs(old.indicator as nat, new.indicator as nat);
    lemma_count_step(old, new, 5, KomsiCommandKind::LightsWarning, c5);
    let c6: nat = c5 + differs(old.lights_warning as nat, new.lights_warning as nat);
    lemma_count_step(old, new, 6, KomsiCommandKind::LightsMain, c6);
    let c7: nat = c6 + differs(old.lights_main as nat, new.lights_main as nat);
    lemma_count_step(old, new, 7, KomsiCommandKind::LightsStopRequest, c7);
    let c8: nat = c7 + differs(old.lights_stop_request as nat, new.lights_stop_request as nat);
    lemma_count_step(old, new, 8, KomsiCommandKind::LightsStopBrake, c8);
    let c9: nat = c8 + differs(old.lights_stop_brake as nat, new.lights_stop_brake as nat);
    lemma_count_step(old, new, 9, KomsiCommandKind::LightsFrontDoor, c9);
    let c10: nat = c9 + differs(old.lights_front_door as nat, new.lights_front_door as nat);
    lemma_count_step(old, new, 10, KomsiCommandKind::LightsSecondDoor, c10);
    let c11: nat = c10 + differs(old.lights_second_door as nat, new.lights_second_door as nat);
    lemma_count_step(old, new, 11, KomsiCommandKind::LightsHighBeam, c11);
    let c12: nat = c11 + differs(old.lights_high_beam as nat, new.lights_high_beam as nat);
    lemma_count_step(old, new, 12, KomsiCommandKind::BatteryLight, c12);
    let c13: nat = c12 + differs(old.battery_light as nat, new.battery_light as nat);
    lemma_count_step(old, new, 13, KomsiCommandKind::Fuel, c13);
    let c14: nat = c13 + differs(old.fuel as nat, new.fuel as nat);
    lemma_count_step(old, new, 14, KomsiCommandKind::Speed, c14);
    let c15: nat = c14 + differs(old.speed as nat, new.speed as nat);
    lemma_count_step(old, new, 15, KomsiCommandKind::MaxSpeed, c15);
    let c16: nat = c15 + differs(old.maxspeed as nat, new.maxspeed as nat);
    assert(c16 == differing_fields(old, new));
}

/// The stream is empty exactly when nothing is forced and the two
/// snapshots are equal.
pub proof fn diff_is_empty_iff_unchanged(old: VehicleState, new: VehicleState, force: bool)
    ensures
        diff_bytes(old, new, force).len() == 0 <==> (!force && old == new),
{
    lemma_nothing_sent_iff_unchanged(old, new, force);
}

/// A snapshot compared with itself, without `force`, gives the empty
/// stream.
pub proof fn unchanged_state_sends_nothing(s: VehicleState)
    ensures
        diff_bytes(s, s, false) == Seq::<u8>::empty(),
{
    lemma_nothing_sent_iff_unchanged(s, s, false);
}

/// Under `force` every signal is sent exactly once, in the fixed order and
/// with its new value, whatever the old snapshot holds; the
/// end-of-transmission marker follows.
pub proof fn forced_diff_sends_every_signal(old: VehicleState, new: VehicleState)
    ensures
        sent_kinds(old, new, true) == signal_order(),
        diff_bytes(old, new, true) == frames_of(signal_order(), new).push(KOMSI_EOL),
        frame_count(diff_bytes(old, new, true)) == 16,
{
    lemma_forced_prefix(old, new, 16);
    lemma_prefix_ends(old, new, true);
    assert(signal_order().take(16) =~= signal_order());
    lemma_frame_count_of_frames(signal_order(), new);
    frames_of(signal_order(), new).lemma_filter_push(KOMSI_EOL, command_code_filter());
}

/// Without `force` the stream holds as many frames as fields differ, a
/// signal whose value changed has its command code in the stream, and one
/// whose value did not change has not.
pub proof fn diff_is_minimal(old: VehicleState, new: VehicleState)
    ensures
        frame_count(diff_bytes(old, new, false)) == differing_fields(old, new),
        forall|kind: KomsiCommandKind|
            old.signal(kind) != new.signal(kind) <==> diff_bytes(old, new, false).contains(
                #[trigger] kind.spec_code(),
            ),
{
    let kinds = sent_kinds(old, new, false);
    let bytes = diff_bytes(old, new, false);
    let frames = frames_of(kinds, new);
    let pred = sent_filter(old, new, false);
    lemma_sent_count(old, new);
    lemma_frame_count_of_frames(kinds, new);
    lemma_frames_bytes(kinds, new);
    signal_order_is_complete();
    Seq::<u8>::empty().lemma_filter_len(command_code_filter());
    if kinds.len() > 0 {
        frames.lemma_filter_push(KOMSI_EOL, command_code_filter());
    }
    assert forall|kind: KomsiCommandKind|
        old.signal(kind) != new.signal(kind) <==> bytes.contains(#[trigger] kind.spec_code()) by {
        command_codes_are_letters(kind);
        if old.signal(kind) != new.signal(kind) {
            assert(signal_order().contains(kind));
            let i = choose|i: int| 0 <= i < signal_order().len() && signal_order()[i] == kind;
            signal_order().lemma_filter_contains(pred, i);
            let j = choose|j: int| 0 <= j < kinds.len() && kinds[j] == kind;
            assert(frames.contains(kinds[j].spec_code()));
            let at = choose|at: int| 0 <= at < frames.len() && frames[at] == kind.spec_code();
            assert(bytes[at] == kind.spec_code());
        }
        if bytes.contains(kind.spec_code()) {
            let at = choose|at: int| 0 <= at < bytes.len() && bytes[at] == kind.spec_code();
            assert(at < frames.len());
            assert(frames[at] == bytes[at]);
            let j = choose|j: int|
                0 <= j < kinds.len() && (#[trigger] kinds[j]).spec_code() == frames[at];
            command_codes_are_distinct(kinds[j], kind);
            signal_order().lemma_filter_pred(pred, j);
        }
    }
}

/// The end-of-transmission marker is in the stream exactly when the stream
/// is not empty; it is then the last byte, it occurs nowhere else, and
/// frames stand before it.
pub proof fn marker_ends_nonempty_stream(old: VehicleState, new: VehicleState, force: bool)
    ensures
        diff_bytes(old, new, force).contains(KOMSI_EOL) <==> diff_bytes(old, new, force).len() > 0,
        diff_bytes(old, new, force).len() > 0 ==> {
            &&& diff_bytes(old, new, force).last() == KOMSI_EOL
            &&& diff_bytes(old, new, force).drop_last().len() > 0
            &&& !diff_bytes(old, new, force).drop_last().contains(KOMSI_EOL)
            &&& diff_bytes(old, new, force).drop_last() == frames_of(
                sent_kinds(old, new, force),
                new,
            )
        },
{
    let kinds = sent_kinds(old, new, force);
    let bytes = diff_bytes(old, new, force);
    let frames = frames_of(kinds, new);
    lemma_frames_len(kinds, new);
    lemma_frames_bytes(kinds, new);
    if kinds.len() > 0 {
        assert(bytes.drop_last() =~= frames);
        assert(bytes[bytes.len() - 1] == KOMSI_EOL);
        if frames.contains(KOMSI_EOL) {
            let at = choose|at: int| 0 <= at < frames.len() && frames[at] == KOMSI_EOL;
            if !is_digit(frames[at]) {
                let j = choose|j: int|
                    0 <= j < kinds.len() && (#[trigger] kinds[j]).spec_code() == frames[at];
                command_codes_are_letters(kinds[j]);
            }
        }
    }
}

/// The order of the frames depends only on which signals are sent: two
/// comparisons that send the same set of signals send them in the same
/// order.
pub proof fn same_changes_same_order(
    old1: VehicleState,
    new1: VehicleState,
    force1: bool,
    old2: VehicleState,
    new2: VehicleState,
    force2: bool,
)
    requires
        changed_set(old1, new1, force1) == changed_set(old2, new2, force2),
    ensures
        sent_kinds(old1, new1, force1) == sent_kinds(old2, new2, force2),
{
    let p = sent_filter(old1, new1, force1);
    let q = sent_filter(old2, new2, force2);
    assert forall|i: int| 0 <= i < signal_order().len() implies p(#[trigger] signal_order()[i])
        == q(signal_order()[i]) by {
        let kind = signal_order()[i];
        assert(changed_set(old1, new1, force1).contains(kind) == p(kind));
        assert(changed_set(old2, new2, force2).contains(kind) == q(kind));
    }
    lemma_filter_agrees(signal_order(), p, q);
}

/// Two comparisons that send the same set of signals, with the same new
/// values for them, give the same bytes.
pub proof fn same_changes_same_bytes(
    old1: VehicleState,
    new1: VehicleState,
    force1: bool,
    old2: VehicleState,
    new2: VehicleState,
    force2: bool,
)
    requires
        changed_set(old1, new1, force1) == changed_set(old2, new2, force2),
        forall|kind: KomsiCommandKind| #[trigger]
            changed_set(old1, new1, force1).contains(kind) ==> new1.signal(kind) == new2.signal(
                kind,
            ),
    ensures
        diff_bytes(old1, new1, force1) == diff_bytes(old2, new2, force2),
{
    let kinds = sent_kinds(old1, new1, force1);
    let p = sent_filter(old1, new1, force1);
    same_changes_same_order(old1, new1, force1, old2, new2, force2);
    assert forall|i: int| 0 <= i < kinds.len() implies new1.signal(#[trigger] kinds[i])
        == new2.signal(kinds[i]) by {
        signal_order().lemma_filter_pred(p, i);
        assert(changed_set(old1, new1, force1).contains(kinds[i]));
    }
    lemma_frames_agree(kinds, new1, new2);
}

/// The snapshot that a receiver holds after it has taken the given
/// signals, one after the other, with the values of `source`.
pub open spec fn apply_signals(
    state: VehicleState,
    kinds: Seq<KomsiCommandKind>,
    source: VehicleState,
) -> VehicleState
    decreases kinds.len(),
{
    if kinds.len() == 0 {
        state
    } else {
        apply_signals(state, kinds.drop_last(), source).with_signal(
            kinds.last(),
            source.signal(kinds.last()),
        )
    }
}

/// After a receiver has taken some signals from `source`, each of them has
/// the value of `source` and every other signal is as it was.
proof fn lemma_signal_after_apply(
    state: VehicleState,
    kinds: Seq<KomsiCommandKind>,
    source: VehicleState,
    kind: KomsiCommandKind,
)
    ensures
        apply_signals(state, kinds, source).signal(kind) == if kinds.contains(kind) {
            source.signal(kind)
        } else {
            state.signal(kind)
        },
    decreases kinds.len(),
{
    if kinds.len() > 0 {
        let rest = kinds.drop_last();
        lemma_signal_after_apply(state, rest, source, kind);
        signal_after_update(apply_signals(state, rest, source), source, kinds.last(), kind);
        if kinds.last() == kind {
            assert(kinds[kinds.len() - 1] == kind);
        } else if kinds.contains(kind) {
            let i = choose|i: int| 0 <= i < kinds.len() && kinds[i] == kind;
            assert(rest[i] == kind);
        } else if rest.contains(kind) {
            let i = choose|i: int| 0 <= i < rest.len() && rest[i] == kind;
            assert(kinds[i] == kind);
        }
    }
}

/// The stream carries the whole step: a receiver that holds `old` and
/// takes the signals that are sent, with their new values, holds `new`.
pub proof fn diff_brings_receiver_up_to_date(old: VehicleState, new: VehicleState, force: bool)
    ensures
        apply_signals(old, sent_kinds(old, new, force), new) == new,
{
    let kinds = sent_kinds(old, new, force);
    let order = signal_order();
    let pred = sent_filter(old, new, force);
    let after = apply_signals(old, kinds, new);
    signal_order_is_complete();
    assert forall|kind: KomsiCommandKind| after.signal(kind) == new.signal(kind) by {
        lemma_signal_after_apply(old, kinds, new, kind);
        if !kinds.contains(kind) {
            assert(order.contains(kind));
            let i = choose|i: int| 0 <= i < order.len() && order[i] == kind;
            if pred(order[i]) {
                order.lemma_filter_contains(pred, i);
            }
            assert(!is_sent(old, new, force, kind));
        }
    }
    signals_determine_state(after, new);
}

} // verus!
