//! What holds of the library as a whole.

use vstd::prelude::*;

use crate::client::ClientRequestView;
use crate::connection::{
    delay_after, Action, ConnectionView, Outcome, Phase, QUICK_DELAY_MS, QUICK_TRIES, SLOW_DELAY_MS,
};
use crate::defaults::{default_name, json_document};
use crate::device::{
    next_lookup, step_fits, stepped_volume, DeviceTargetView, DeviceView, MAX_RETRIES,
    RETRY_DELAY_MS,
};
use crate::globals::NodeInfoView;
use crate::kind::DeviceKind;
use crate::props::{law_props_round_trip, reported_props, PodView};
use crate::registry::{Event, RegistryView, VolInfoView};
use crate::text::{decimal_text, law_u32_text_round_trip};

verus! {

// The registry.

/// An event keeps each device listed under its own identifier, and each bound node listed.
pub proof fn law_event_keeps_well_formed(registry: RegistryView, event: Event)
    requires
        registry.well_formed(),
    ensures
        registry.after(event).well_formed(),
{
}

/// Whatever the server reports, each device is listed under its own identifier, and each bound
/// node is listed.
pub proof fn law_always_well_formed(events: Seq<Event>)
    ensures
        RegistryView::empty().after_all(events).well_formed(),
    decreases events.len(),
{
    if events.len() > 0 {
        law_always_well_formed(events.drop_last());
        law_event_keeps_well_formed(
            RegistryView::empty().after_all(events.drop_last()),
            events.last(),
        );
    }
}

/// The average of some volumes: zero for none, and otherwise the percentage of their mean.
pub open spec fn average(volumes: Seq<u32>, mean_of: spec_fn(Seq<u32>) -> u32) -> u32 {
    if volumes.len() == 0 {
        0
    } else {
        mean_of(volumes)
    }
}

/// Whether every report in a row of events gives the mean of its volumes.
pub open spec fn means_go_by(events: Seq<Event>, mean_of: spec_fn(Seq<u32>) -> u32) -> bool {
    forall|i: int|
        0 <= i < events.len() ==> (#[trigger] events[i] matches Event::Props { volumes, mean, .. }
            ==> mean == mean_of(volumes))
}

/// Whatever the server reports, each device is listed under its own identifier, and its average
/// volume is that of its channel volumes.
pub proof fn law_averages_go_by_channel_volumes(
    events: Seq<Event>,
    mean_of: spec_fn(Seq<u32>) -> u32,
)
    requires
        means_go_by(events, mean_of),
    ensures
        forall|id: u32| #[trigger]
            RegistryView::empty().after_all(events).devices.contains_key(id) ==> {
                let info = RegistryView::empty().after_all(events).devices[id];
                info.id == id && info.volume_avg == average(info.channel_volumes, mean_of)
            },
    decreases events.len(),
{
    law_always_well_formed(events);
    if events.len() > 0 {
        let before = events.drop_last();
        assert forall|i: int| 0 <= i < before.len() implies (#[trigger] before[i]
            matches Event::Props { volumes, mean, .. } ==> mean == mean_of(volumes)) by {
            assert(events[i] == before[i]);
        }
        law_averages_go_by_channel_volumes(before, mean_of);
        assert(events[events.len() - 1] == events.last());
    }
}

/// Those who wait for changes are told of every event that changes anything.
pub proof fn law_changes_are_notified(registry: RegistryView, event: Event)
    requires
        registry.after(event) != registry,
    ensures
        event.notifies(),
{
}

/// Whether a row of events makes a device known and does not end with it gone.
pub open spec fn introduced(events: Seq<Event>, id: u32) -> bool {
    exists|i: int|
        0 <= i < events.len() && (#[trigger] events[i]).introduces(id) && stays(events, i, id)
}

/// Whether a row of events binds a node and does not end with it gone.
pub open spec fn left_bound(events: Seq<Event>, id: u32) -> bool {
    exists|i: int|
        0 <= i < events.len() && (#[trigger] events[i] matches Event::Bound(node) && node.id == id)
            && stays(events, i, id)
}

/// Whether nothing after a place in a row of events takes an object away.
pub open spec fn stays(events: Seq<Event>, from: int, id: u32) -> bool {
    forall|j: int| from < j < events.len() ==> #[trigger] events[j] != Event::Removed(id)
}

/// A device is listed exactly if it was bound, or reported properties, and has not gone away
/// since. A node counts as bound exactly if it was bound and has not gone away since.
pub proof fn law_listed_until_removed(events: Seq<Event>, id: u32)
    ensures
        RegistryView::empty().after_all(events).devices.contains_key(id) <==> introduced(
            events,
            id,
        ),
        RegistryView::empty().after_all(events).nodes.contains(id) <==> left_bound(events, id),
    decreases events.len(),
{
    if events.len() > 0 {
        let before = events.drop_last();
        let last = events.last();
        law_listed_until_removed(before, id);
        assert(forall|i: int| 0 <= i < before.len() ==> events[i] == before[i]);
        if last != Event::Removed(id) {
            assert forall|i: int| 0 <= i < before.len() && stays(before, i, id) implies stays(
                events,
                i,
                id,
            ) by {
                assert forall|j: int| i < j < events.len() implies #[trigger] events[j]
                    != Event::Removed(id) by {
                    if j < before.len() {
                        assert(before[j] != Event::Removed(id));
                    }
                }
            }
            if introduced(before, id) {
                let i = choose|i: int|
                    0 <= i < before.len() && (#[trigger] before[i]).introduces(id) && stays(
                        before,
                        i,
                        id,
                    );
                assert(events[i].introduces(id) && stays(events, i, id));
            }
            if left_bound(before, id) {
                let i = choose|i: int|
                    0 <= i < before.len() && (#[trigger] before[i] matches Event::Bound(node)
                        && node.id == id) && stays(before, i, id);
                assert(events[i] == before[i] && stays(events, i, id));
            }
            assert(stays(events, before.len() as int, id));
        }
        assert forall|i: int| 0 <= i < before.len() && stays(events, i, id) implies stays(
            before,
            i,
            id,
        ) && last != Event::Removed(id) by {
            assert(events[before.len() as int] != Event::Removed(id));
            assert forall|j: int| i < j < before.len() implies #[trigger] before[j]
                != Event::Removed(id) by {
                assert(events[j] != Event::Removed(id));
            }
        }
    }
}

/// An event that is about one node leaves what is known of every other device as it was.
pub proof fn law_other_devices_untouched(registry: RegistryView, event: Event, id: u32)
    requires
        !event.introduces(id),
        event != Event::Removed(id),
    ensures
        registry.after(event).devices.contains_key(id) == registry.devices.contains_key(id),
        registry.devices.contains_key(id) ==> registry.after(event).devices[id]
            == registry.devices[id],
        registry.after(event).nodes.contains(id) == registry.nodes.contains(id),
{
}

/// When a node goes away that was not known before it was bound, nothing is left of it.
pub proof fn law_removal_undoes_binding(registry: RegistryView, node: NodeInfoView)
    requires
        registry.well_formed(),
        !registry.devices.contains_key(node.id),
    ensures
        registry.after(Event::Bound(node)).after(Event::Removed(node.id)) == registry,
{
    assert(registry.bound(node).without(node.id) =~= registry);
}

/// Of two reports of the same node only the later counts.
pub proof fn law_latest_report_counts(
    registry: RegistryView,
    node: NodeInfoView,
    first: (Seq<u32>, bool, u32),
    second: (Seq<u32>, bool, u32),
)
    ensures
        registry.with_props(node, first.0, first.1, first.2).with_props(
            node,
            second.0,
            second.1,
            second.2,
        ) == registry.with_props(node, second.0, second.1, second.2),
{
    assert(registry.with_props(node, first.0, first.1, first.2).with_props(
        node,
        second.0,
        second.1,
        second.2,
    ) =~= registry.with_props(node, second.0, second.1, second.2));
}

/// It makes no difference whether a node reports its properties before or after it is listed as
/// bound.
pub proof fn law_report_and_binding_commute(
    registry: RegistryView,
    node: NodeInfoView,
    volumes: Seq<u32>,
    mute: bool,
    mean: u32,
)
    ensures
        registry.bound(node).with_props(node, volumes, mute, mean) == registry.with_props(
            node,
            volumes,
            mute,
            mean,
        ).bound(node),
{
    assert(registry.bound(node).with_props(node, volumes, mute, mean) =~= registry.with_props(
        node,
        volumes,
        mute,
        mean,
    ).bound(node));
}

// Requests.

/// A request changes a node exactly if the node was bound and has not gone away since.
pub proof fn law_requests_reach_bound_nodes(events: Seq<Event>, request: ClientRequestView)
    ensures
        RegistryView::empty().after_all(events).change_for(request) is Some <==> left_bound(
            events,
            request.node(),
        ),
{
    law_listed_until_removed(events, request.node());
}

/// Whether, in a row of events, only nodes that are bound report properties.
pub open spec fn bound_nodes_report(events: Seq<Event>) -> bool
    decreases events.len(),
{
    events.len() > 0 ==> {
        &&& bound_nodes_report(events.drop_last())
        &&& events.last() matches Event::Props { node, .. } ==> RegistryView::empty().after_all(
            events.drop_last(),
        ).nodes.contains(node.id)
    }
}

/// As long as only bound nodes report properties, the listed devices are the bound nodes.
pub proof fn law_listed_devices_are_bound(events: Seq<Event>)
    requires
        bound_nodes_report(events),
    ensures
        RegistryView::empty().after_all(events).devices.dom() == RegistryView::empty().after_all(
            events,
        ).nodes,
    decreases events.len(),
{
    let after = RegistryView::empty().after_all(events);
    if events.len() > 0 {
        law_listed_devices_are_bound(events.drop_last());
    }
    assert(after.devices.dom() =~= after.nodes);
}

/// As long as only bound nodes report properties, a request for a device that was found reaches
/// its node.
pub proof fn law_found_device_can_be_changed(
    events: Seq<Event>,
    device: DeviceView,
    info: VolInfoView,
    request: ClientRequestView,
)
    requires
        bound_nodes_report(events),
        device.resolves_to(RegistryView::empty().after_all(events), Some(info)),
        request.node() == info.id,
    ensures
        RegistryView::empty().after_all(events).change_for(request) == Some(
            (info.id, request.object()),
        ),
{
    let after = RegistryView::empty().after_all(events);
    law_listed_devices_are_bound(events);
    law_always_well_formed(events);
    let id = choose|id: u32| #[trigger] device.means(after, id) && info == after.devices[id];
    assert(after.devices.contains_key(id));
    assert(after.devices.dom().contains(id));
}

/// A node that reports the properties it was given by a request reports the volumes and the mute
/// state of the request: no volumes for a request that sets the mute state alone, not muted for
/// one that sets volumes alone, and nothing for one that sets neither.
pub proof fn law_requests_read_back(request: ClientRequestView)
    ensures
        reported_props(PodView::Object(request.object())) == (match request {
            ClientRequestView::SetVolume { volumes, mute, .. } => if volumes.len() == 0
                && mute is None {
                None
            } else {
                Some((volumes, mute == Some(true)))
            },
            ClientRequestView::SetMute { mute, .. } => Some((Seq::empty(), mute)),
        }),
{
    match request {
        ClientRequestView::SetVolume { volumes, mute, .. } => {
            law_props_round_trip(volumes, mute);
        },
        ClientRequestView::SetMute { mute, .. } => {
            law_props_round_trip(Seq::empty(), Some(mute));
        },
    }
}

// Devices.

/// A device that is named by its identifier is meant by its identifier.
pub proof fn law_number_means_identifier(id: u32)
    ensures
        DeviceTargetView::named(Some(decimal_text(id as nat))) == DeviceTargetView::ById(id),
{
    law_u32_text_round_trip(id);
}

/// Where only one device is meant, a lookup finds that one.
pub proof fn law_only_device_is_found(
    device: DeviceView,
    registry: RegistryView,
    id: u32,
    info: Option<VolInfoView>,
)
    requires
        device.means(registry, id),
        forall|other: u32| #[trigger] device.means(registry, other) ==> other == id,
        device.resolves_to(registry, info),
    ensures
        info == Some(registry.devices[id]),
{
}

/// A device that is not meant by its identifier is of the kind that was asked for.
pub proof fn law_found_device_is_of_kind(
    device: DeviceView,
    registry: RegistryView,
    info: VolInfoView,
)
    requires
        !(device.target is ById),
        device.resolves_to(registry, Some(info)),
    ensures
        info.kind == device.kind,
        device.target matches DeviceTargetView::ByName(name) ==> info.name == name,
{
}

/// Once the server has named the default device of a kind, a lookup of the default device of that
/// kind finds a device with that name or none, and the default device of the other kind is as it
/// was.
pub proof fn law_default_device_follows_metadata(
    registry: RegistryView,
    kind: DeviceKind,
    value: Seq<char>,
    info: Option<VolInfoView>,
    cached: Option<VolInfoView>,
)
    requires
        (DeviceView { target: DeviceTargetView::Default, kind, cached }).resolves_to(
            registry.after(
                Event::Property { subject: 0, key: Some(default_key(kind)), value: Some(value) },
            ),
            info,
        ),
    ensures
        match info {
            Some(info) => info.kind == kind && info.name == default_name(value),
            None => forall|id: u32|
                !#[trigger] registry.has(id, kind, Some(default_name(value))),
        },
        forall|other: DeviceKind|
            other != kind ==> #[trigger] registry.after(
                Event::Property { subject: 0, key: Some(default_key(kind)), value: Some(value) },
            ).defaults.of_kind(other) == registry.defaults.of_kind(other),
{
    reveal_strlit("default.audio.sink");
    reveal_strlit("default.audio.source");
    assert("default.audio.sink"@.len() != "default.audio.source"@.len());
    let device = DeviceView { target: DeviceTargetView::Default, kind, cached };
    let after = registry.after(
        Event::Property { subject: 0, key: Some(default_key(kind)), value: Some(value) },
    );
    assert(after.defaults.of_kind(kind) == Some(default_name(value)));
    if info is None {
        assert forall|id: u32|
            !#[trigger] registry.has(id, kind, Some(default_name(value))) by {
            assert(!device.means(after, id));
        }
    }
}

/// The metadata key that names the default device of a kind.
pub open spec fn default_key(kind: DeviceKind) -> Seq<char> {
    match kind {
        DeviceKind::Sink => "default.audio.sink"@,
        DeviceKind::Source => "default.audio.source"@,
    }
}

/// A metadata value that is no JSON is the name of a device as it stands.
pub proof fn law_plain_value_is_a_name(value: Seq<char>)
    requires
        json_document(value) is None,
    ensures
        default_name(value) == value,
{
}

/// A lookup by identifier, after a node has reported its properties, finds what the node
/// reported.
pub proof fn law_report_is_found(
    registry: RegistryView,
    node: NodeInfoView,
    volumes: Seq<u32>,
    mute: bool,
    mean: u32,
    device: DeviceView,
    info: Option<VolInfoView>,
)
    requires
        device.target == DeviceTargetView::ById(node.id),
        device.resolves_to(
            registry.after(Event::Props { node, volumes, mute, mean }),
            info,
        ),
    ensures
        info is Some,
        info->0.name == node.name,
        info->0.description == node.description,
        info->0.channel_volumes == volumes,
        info->0.mute == mute,
        info->0.volume_avg == (if volumes.len() == 0 {
            0
        } else {
            mean
        }),
{
    assert(device.means(
        registry.after(Event::Props { node, volumes, mute, mean }),
        node.id,
    ));
}

/// A lookup by identifier finds nothing once the node has gone away.
pub proof fn law_removed_device_is_not_found(
    registry: RegistryView,
    id: u32,
    device: DeviceView,
    info: Option<VolInfoView>,
)
    requires
        device.target == DeviceTargetView::ById(id),
        device.resolves_to(registry.after(Event::Removed(id)), info),
    ensures
        info is None,
{
}

/// The time that is spent waiting in lookups that find nothing, from a number of retries on.
pub open spec fn time_waited(retries: u32) -> nat
    decreases MAX_RETRIES - retries,
{
    match next_lookup(retries) {
        Some((next, delay_ms)) => delay_ms as nat + time_waited(next),
        None => 0,
    }
}

/// The number of lookups that find nothing, from a number of retries on.
pub open spec fn lookups(retries: u32) -> nat
    decreases MAX_RETRIES - retries,
{
    match next_lookup(retries) {
        Some((next, _)) => 1 + lookups(next),
        None => 1,
    }
}

/// The waiting that is left is the retries that are left, at one delay each.
proof fn lemma_lookups(retries: u32)
    requires
        retries <= MAX_RETRIES,
    ensures
        time_waited(retries) == (MAX_RETRIES - retries) * RETRY_DELAY_MS,
        lookups(retries) == MAX_RETRIES - retries + 1,
    decreases MAX_RETRIES - retries,
{
    if retries < MAX_RETRIES {
        lemma_lookups((retries + 1) as u32);
    }
}

/// A device that is not there is given up after thirty seconds.
pub proof fn law_lookup_gives_up()
    ensures
        time_waited(0) == 30_000,
        lookups(0) == 301,
{
    lemma_lookups(0);
}

// Volume and mute.

/// Muting a device twice leaves it as it was.
pub proof fn law_toggle_twice(info: VolInfoView)
    ensures
        info.toggled().toggled() == info,
        info.toggled().mute != info.mute,
{
}

/// A step leads to a volume that is not below zero and not above the limit.
pub proof fn law_volume_stays_in_bounds(volume: u32, step: i32, max_vol: Option<u32>)
    requires
        step_fits(volume, step),
    ensures
        0 <= stepped_volume(volume, step, max_vol) <= i32::MAX,
        max_vol matches Some(limit) ==> stepped_volume(volume, step, max_vol) <= limit,
{
}

/// A step that reaches neither zero nor a limit is undone by the opposite step.
pub proof fn law_opposite_step_restores(volume: u32, step: i32)
    requires
        volume <= i32::MAX,
        step > i32::MIN,
        0 <= volume + step <= i32::MAX,
    ensures
        stepped_volume(stepped_volume(volume, step, None) as u32, (-step) as i32, None) == volume,
{
}

/// A change of volume sets every channel alike, keeps the number of channels that were known, and
/// touches nothing else; of two changes only the later counts.
pub proof fn law_volume_change(
    info: VolInfoView,
    volume: u32,
    linear: u32,
    later_volume: u32,
    later_linear: u32,
)
    ensures
        info.at_volume(volume, linear).channels() == info.channels(),
        info.channel_volumes.len() > 0 ==> info.at_volume(volume, linear).channel_volumes.len()
            == info.channel_volumes.len(),
        forall|i: int|
            0 <= i < info.channels() ==> #[trigger] info.at_volume(
                volume,
                linear,
            ).channel_volumes[i] == linear,
        info.at_volume(volume, linear).mute == info.mute,
        info.at_volume(volume, linear).id == info.id,
        info.at_volume(volume, linear).at_volume(later_volume, later_linear) == info.at_volume(
            later_volume,
            later_linear,
        ),
{
    assert(info.at_volume(volume, linear).at_volume(later_volume, later_linear)
        =~= info.at_volume(later_volume, later_linear));
}

// The connection.

/// The state in which an attempt is that has come to a stage, after a number of successes.
pub open spec fn at_stage(connection: ConnectionView, successes: nat) -> ConnectionView
    decreases successes,
{
    if successes == 0 {
        connection.next(Outcome::Done).0
    } else {
        at_stage(connection, (successes - 1) as nat).next(Outcome::Done).0
    }
}

/// The state and the action after an attempt that failed after a number of successes.
pub open spec fn failed_attempt(
    connection: ConnectionView,
    successes: nat,
) -> (ConnectionView, Action) {
    at_stage(connection, successes).next(Outcome::Failed)
}

/// The state after a row of failed attempts, each after its number of successes.
pub open spec fn failed_attempts(
    connection: ConnectionView,
    successes: Seq<nat>,
) -> ConnectionView
    decreases successes.len(),
{
    if successes.len() == 0 {
        connection
    } else {
        failed_attempt(
            failed_attempts(connection, successes.drop_last()),
            successes.last(),
        ).0
    }
}

/// Wherever an attempt fails, the delay goes by the number of attempts alone, and the next attempt
/// starts from the beginning.
pub proof fn law_failed_attempt(connection: ConnectionView, successes: nat)
    requires
        connection.phase == Phase::Idle,
        successes <= 2,
    ensures
        failed_attempt(connection, successes) == (
            ConnectionView { phase: Phase::Idle, tries: connection.tries + 1 },
            Action::Sleep { ms: delay_after(connection.tries + 1) },
        ),
{
    reveal_with_fuel(at_stage, 3);
}

/// The first ten failed attempts in a row are followed by the short delay, and all later ones by
/// the long delay.
pub proof fn law_delays(successes: Seq<nat>, last: nat)
    requires
        forall|i: int| 0 <= i < successes.len() ==> #[trigger] successes[i] <= 2,
        last <= 2,
    ensures
        failed_attempts(ConnectionView::initial(), successes) == (ConnectionView {
            phase: Phase::Idle,
            tries: successes.len() as int,
        }),
        failed_attempt(failed_attempts(ConnectionView::initial(), successes), last).1
            == (Action::Sleep {
            ms: if successes.len() < QUICK_TRIES {
                QUICK_DELAY_MS
            } else {
                SLOW_DELAY_MS
            },
        }),
    decreases successes.len(),
{
    if successes.len() > 0 {
        law_delays(successes.drop_last(), successes.last());
        law_failed_attempt(
            failed_attempts(ConnectionView::initial(), successes.drop_last()),
            successes.last(),
        );
    }
    law_failed_attempt(failed_attempts(ConnectionView::initial(), successes), last);
}

/// A connection starts with nothing known of the devices and no attempts counted. When it is lost,
/// the next attempt starts at once, and if that fails, the delay is the short one.
pub proof fn law_connection_starts_afresh(
    connection: ConnectionView,
    registry: RegistryView,
    successes: nat,
)
    requires
        connection.phase == Phase::Core,
        successes <= 2,
    ensures
        connection.registry_after(Outcome::Done, registry) == RegistryView::empty(),
        connection.next(Outcome::Done).0.tries == 0,
        ({
            let serving = connection.next(Outcome::Done).0.next(Outcome::Done).0;
            &&& serving.next(Outcome::Failed) == (
                ConnectionView { phase: Phase::MainLoop, tries: 1 },
                Action::CreateMainLoop,
            )
            &&& at_stage_after_loss(serving, successes).next(Outcome::Failed).1 == (Action::Sleep {
                ms: QUICK_DELAY_MS,
            })
        }),
{
    reveal_with_fuel(at_stage_after_loss, 3);
}

/// The state in which the attempt after a lost connection is, after a number of successes.
pub open spec fn at_stage_after_loss(serving: ConnectionView, successes: nat) -> ConnectionView
    decreases successes,
{
    if successes == 0 {
        serving.next(Outcome::Failed).0
    } else {
        at_stage_after_loss(serving, (successes - 1) as nat).next(Outcome::Done).0
    }
}

/// While the connection lasts, rounds of the main loop take turns with requests, nothing that is
/// known is forgotten, and no attempt is counted.
pub proof fn law_rounds_and_requests_take_turns(
    connection: ConnectionView,
    outcome: Outcome,
    registry: RegistryView,
)
    requires
        connection.phase == Phase::Round || connection.phase == Phase::Requests,
        connection.phase == Phase::Round ==> outcome == Outcome::Done,
    ensures
        connection.next(outcome).0 == (ConnectionView {
            phase: if connection.phase == Phase::Round {
                Phase::Requests
            } else {
                Phase::Round
            },
            ..connection
        }),
        connection.registry_after(outcome, registry) == registry,
{
}

} // verus!
