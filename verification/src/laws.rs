//! What holds of every conversion, proved from the definitions in `event`.

use crate::event::{
    deciding_value, event_of, is_recognized, lemma_names_differ, Event, DESCRIPTION, DTEND,
    DTSTART, LOCATION, SUMMARY,
};
use crate::raw::{PropertyView, RawEvent};
use crate::timestamp::{is_basic_date_time, is_well_formed_timestamp, timestamp_of};
use vstd::prelude::*;

verus! {

/// The property at `index` is called `name`, and none after it is.
pub open spec fn is_last_named(properties: Seq<PropertyView>, name: Seq<char>, index: int) -> bool {
    &&& 0 <= index < properties.len()
    &&& properties[index].name == name
    &&& forall|later: int|
        index < later < properties.len() ==> (#[trigger] properties[later]).name != name
}

/// The last property called `name` carries a value.
pub open spec fn carries_value(properties: Seq<PropertyView>, name: Seq<char>) -> bool {
    exists|index: int| #[trigger]
        is_last_named(properties, name, index) && properties[index].value is Some
}

/// Every value of a `DTSTART` or `DTEND` property has the basic shape and
/// names a date and a time of day.
pub open spec fn timestamps_well_formed(properties: Seq<PropertyView>) -> bool {
    forall|index: int|
        0 <= index < properties.len() && ((#[trigger] properties[index]).name == DTSTART@
            || properties[index].name == DTEND@) ==> match properties[index].value {
            Some(text) => is_well_formed_timestamp(text),
            None => true,
        }
}

/// Last write wins: the last property called `name` decides with its value.
pub proof fn lemma_last_named_decides(properties: Seq<PropertyView>, name: Seq<char>, index: int)
    requires
        is_last_named(properties, name, index),
    ensures
        deciding_value(properties, name) == properties[index].value,
    decreases properties.len(),
{
    if properties.last().name != name {
        let shorter = properties.drop_last();
        assert forall|later: int| index < later < shorter.len() implies (
        #[trigger] shorter[later]).name != name by {
            assert(shorter[later] == properties[later]);
        }
        lemma_last_named_decides(shorter, name, index);
    }
}

/// Where no property is called `name`, nothing is decided for it.
pub proof fn lemma_unnamed_decides_nothing(properties: Seq<PropertyView>, name: Seq<char>)
    requires
        forall|index: int|
            0 <= index < properties.len() ==> (#[trigger] properties[index]).name != name,
    ensures
        deciding_value(properties, name) is None,
    decreases properties.len(),
{
    if properties.len() > 0 {
        let shorter = properties.drop_last();
        assert forall|index: int| 0 <= index < shorter.len() implies (
        #[trigger] shorter[index]).name != name by {
            assert(shorter[index] == properties[index]);
        }
        lemma_unnamed_decides_nothing(shorter, name);
    }
}

/// A value is decided for `name` exactly where the last property called
/// `name` carries one.
pub proof fn lemma_decided_iff_carried(properties: Seq<PropertyView>, name: Seq<char>)
    ensures
        deciding_value(properties, name) is Some <==> carries_value(properties, name),
    decreases properties.len(),
{
    if carries_value(properties, name) {
        let index = choose|index: int| #[trigger]
            is_last_named(properties, name, index) && properties[index].value is Some;
        lemma_last_named_decides(properties, name, index);
    }
    if deciding_value(properties, name) is Some {
        if properties.last().name == name {
            assert(is_last_named(properties, name, properties.len() - 1));
        } else {
            let shorter = properties.drop_last();
            lemma_decided_iff_carried(shorter, name);
            let index = choose|index: int| #[trigger]
                is_last_named(shorter, name, index) && shorter[index].value is Some;
            assert forall|later: int| index < later < properties.len() implies (
            #[trigger] properties[later]).name != name by {
                if later < shorter.len() {
                    assert(shorter[later] == properties[later]);
                }
            }
            assert(shorter[index] == properties[index]);
            assert(is_last_named(properties, name, index));
        }
    }
}

/// The value decided for `name` is the value of some property called `name`.
pub proof fn lemma_decided_value_occurs(properties: Seq<PropertyView>, name: Seq<char>)
    requires
        deciding_value(properties, name) is Some,
    ensures
        exists|index: int|
            0 <= index < properties.len() && (#[trigger] properties[index]).name == name
                && properties[index].value == deciding_value(properties, name),
    decreases properties.len(),
{
    if properties.last().name == name {
        assert(properties[properties.len() - 1].value == deciding_value(properties, name));
    } else {
        let shorter = properties.drop_last();
        lemma_decided_value_occurs(shorter, name);
        let index = choose|index: int|
            0 <= index < shorter.len() && (#[trigger] shorter[index]).name == name
                && shorter[index].value == deciding_value(shorter, name);
        assert(properties[index] == shorter[index]);
    }
}

/// Where every timestamp value is well formed, each field of the event is
/// set exactly where the last property of its name carries a value.
pub proof fn lemma_fields_set_where_carried(properties: Seq<PropertyView>)
    requires
        timestamps_well_formed(properties),
    ensures
        event_of(properties).title is Some <==> carries_value(properties, SUMMARY@),
        event_of(properties).start is Some <==> carries_value(properties, DTSTART@),
        event_of(properties).end is Some <==> carries_value(properties, DTEND@),
        event_of(properties).location is Some <==> carries_value(properties, LOCATION@),
        event_of(properties).description is Some <==> carries_value(properties, DESCRIPTION@),
{
    lemma_decided_iff_carried(properties, SUMMARY@);
    lemma_decided_iff_carried(properties, DTSTART@);
    lemma_decided_iff_carried(properties, DTEND@);
    lemma_decided_iff_carried(properties, LOCATION@);
    lemma_decided_iff_carried(properties, DESCRIPTION@);
    if deciding_value(properties, DTSTART@) is Some {
        lemma_decided_value_occurs(properties, DTSTART@);
    }
    if deciding_value(properties, DTEND@) is Some {
        lemma_decided_value_occurs(properties, DTEND@);
    }
}

/// A `DTSTART` or `DTEND` value of another shape than `YYYYMMDDTHHMMSS`
/// leaves its field without a value, unless a later property of the same
/// name carries a well-formed timestamp.
pub proof fn lemma_malformed_timestamp_gives_no_value(properties: Seq<PropertyView>, index: int)
    requires
        0 <= index < properties.len(),
        properties[index].name == DTSTART@ || properties[index].name == DTEND@,
        properties[index].value matches Some(text) && !is_basic_date_time(text),
        forall|later: int|
            index < later < properties.len() && (#[trigger] properties[later]).name
                == properties[index].name ==> timestamp_of(properties[later].value) is None,
    ensures
        properties[index].name == DTSTART@ ==> event_of(properties).start is None,
        properties[index].name == DTEND@ ==> event_of(properties).end is None,
{
    lemma_names_differ();
    let name = properties[index].name;
    lemma_deciding_timestamp_none(properties, name, index);
}

/// Where a property called `name` stands at `index` and neither it nor any
/// later one of that name gives a timestamp, none is decided for `name`.
proof fn lemma_deciding_timestamp_none(properties: Seq<PropertyView>, name: Seq<char>, index: int)
    requires
        0 <= index < properties.len(),
        properties[index].name == name,
        forall|later: int|
            index <= later < properties.len() && (#[trigger] properties[later]).name == name
                ==> timestamp_of(properties[later].value) is None,
    ensures
        timestamp_of(deciding_value(properties, name)) is None,
    decreases properties.len(),
{
    if properties.last().name != name {
        let shorter = properties.drop_last();
        assert forall|later: int|
            index <= later < shorter.len() && (#[trigger] shorter[later]).name
                == name implies timestamp_of(shorter[later].value) is None by {
            assert(shorter[later] == properties[later]);
        }
        lemma_deciding_timestamp_none(shorter, name, index);
    } else {
        assert(properties[properties.len() - 1].name == name);
    }
}

/// A property of another name than the five recognized ones, put in at any
/// place of the list, changes no value that is decided.
pub proof fn lemma_other_name_decides_nothing(
    properties: Seq<PropertyView>,
    at: int,
    extra: PropertyView,
    name: Seq<char>,
)
    requires
        0 <= at <= properties.len(),
        extra.name != name,
    ensures
        deciding_value(properties.insert(at, extra), name) == deciding_value(properties, name),
    decreases properties.len() - at,
{
    let longer = properties.insert(at, extra);
    if at == properties.len() {
        assert(longer.drop_last() =~= properties);
    } else {
        assert(longer.last() == properties.last());
        assert(longer.drop_last() =~= properties.drop_last().insert(at, extra));
        if properties.last().name != name {
            lemma_other_name_decides_nothing(properties.drop_last(), at, extra, name);
        }
    }
}

/// A property with an unrecognized name has no effect on the event,
/// wherever in the list it stands.
pub proof fn lemma_unrecognized_property_has_no_effect(
    properties: Seq<PropertyView>,
    at: int,
    extra: PropertyView,
)
    requires
        0 <= at <= properties.len(),
        !is_recognized(extra.name),
    ensures
        event_of(properties.insert(at, extra)) == event_of(properties),
{
    lemma_other_name_decides_nothing(properties, at, extra, SUMMARY@);
    lemma_other_name_decides_nothing(properties, at, extra, DTSTART@);
    lemma_other_name_decides_nothing(properties, at, extra, DTEND@);
    lemma_other_name_decides_nothing(properties, at, extra, LOCATION@);
    lemma_other_name_decides_nothing(properties, at, extra, DESCRIPTION@);
}

/// `properties` with the two neighbors at `at` and `at + 1` in each other's
/// place.
pub open spec fn with_neighbors_swapped(properties: Seq<PropertyView>, at: int) -> Seq<
    PropertyView,
> {
    properties.update(at, properties[at + 1]).update(at + 1, properties[at])
}

/// Two neighbors of different names decide the same in either order.
pub proof fn lemma_swap_decides_the_same(properties: Seq<PropertyView>, at: int, name: Seq<char>)
    requires
        0 <= at,
        at + 1 < properties.len(),
        properties[at].name != properties[at + 1].name,
    ensures
        deciding_value(with_neighbors_swapped(properties, at), name) == deciding_value(
            properties,
            name,
        ),
    decreases properties.len(),
{
    let swapped = with_neighbors_swapped(properties, at);
    if at + 2 == properties.len() {
        reveal_with_fuel(deciding_value, 3);
        assert(swapped.last() == properties[at]);
        assert(swapped.drop_last().last() == properties[at + 1]);
        assert(properties.drop_last().last() == properties[at]);
        assert(swapped.drop_last().drop_last() =~= properties.drop_last().drop_last());
    } else {
        assert(swapped.last() == properties.last());
        assert(swapped.drop_last() =~= with_neighbors_swapped(properties.drop_last(), at));
        lemma_swap_decides_the_same(properties.drop_last(), at, name);
    }
}

/// The order of the properties matters only among those of one name: two
/// neighbors of different names may change places, and the event stays.
pub proof fn lemma_order_matters_only_within_a_name(properties: Seq<PropertyView>, at: int)
    requires
        0 <= at,
        at + 1 < properties.len(),
        properties[at].name != properties[at + 1].name,
    ensures
        event_of(with_neighbors_swapped(properties, at)) == event_of(properties),
{
    lemma_swap_decides_the_same(properties, at, SUMMARY@);
    lemma_swap_decides_the_same(properties, at, DTSTART@);
    lemma_swap_decides_the_same(properties, at, DTEND@);
    lemma_swap_decides_the_same(properties, at, LOCATION@);
    lemma_swap_decides_the_same(properties, at, DESCRIPTION@);
}

/// Converting is a function of the names and values alone: two conversions
/// of raw events with the same properties give the same event.
pub proof fn lemma_same_properties_same_event(
    first: RawEvent,
    second: RawEvent,
    first_event: Event,
    second_event: Event,
)
    requires
        first@ == second@,
        first_event@ == event_of(first@),
        second_event@ == event_of(second@),
    ensures
        first_event@ == second_event@,
{
}

} // verus!
