//! The typed event and its conversion from a raw event.

use crate::raw::{property_views, PropertyView, RawEvent, RawProperty};
use crate::text::{same_text, text_of};
use crate::timestamp::{parse_ical_utc_date_time, timestamp_of, UtcTimestamp};
use vstd::prelude::*;

verus! {

/// Name of the property that gives an event its title.
pub const SUMMARY: &'static str = "SUMMARY";

/// Name of the property that gives an event its start.
pub const DTSTART: &'static str = "DTSTART";

/// Name of the property that gives an event its end.
pub const DTEND: &'static str = "DTEND";

/// Name of the property that gives an event its location.
pub const LOCATION: &'static str = "LOCATION";

/// Name of the property that gives an event its description.
pub const DESCRIPTION: &'static str = "DESCRIPTION";

/// An event of the feed. Each field is there or not, whatever the others are.
#[derive(Debug, Clone, PartialEq, Eq)]
pub struct Event {
    pub title: Option<String>,
    pub start: Option<UtcTimestamp>,
    pub end: Option<UtcTimestamp>,
    pub location: Option<String>,
    pub description: Option<String>,
}

/// An event with its texts as sequences of characters.
pub struct EventView {
    pub title: Option<Seq<char>>,
    pub start: Option<UtcTimestamp>,
    pub end: Option<UtcTimestamp>,
    pub location: Option<Seq<char>>,
    pub description: Option<Seq<char>>,
}

impl View for Event {
    type V = EventView;

    open spec fn view(&self) -> EventView {
        EventView {
            title: text_of(self.title),
            start: self.start,
            end: self.end,
            location: text_of(self.location),
            description: text_of(self.description),
        }
    }
}

/// The event with no field set.
pub open spec fn empty_event() -> EventView {
    EventView { title: None, start: None, end: None, location: None, description: None }
}

/// Whether `name` is one of the five property names that set a field.
pub open spec fn is_recognized(name: Seq<char>) -> bool {
    ||| name == SUMMARY@
    ||| name == DTSTART@
    ||| name == DTEND@
    ||| name == LOCATION@
    ||| name == DESCRIPTION@
}

/// The value that decides a field: that of the last property called `name`,
/// or no value where no property is called so.
pub open spec fn deciding_value(properties: Seq<PropertyView>, name: Seq<char>) -> Option<
    Seq<char>,
>
    decreases properties.len(),
{
    if properties.len() == 0 {
        None
    } else if properties.last().name == name {
        properties.last().value
    } else {
        deciding_value(properties.drop_last(), name)
    }
}

/// The event that a list of properties stands for.
pub open spec fn event_of(properties: Seq<PropertyView>) -> EventView {
    EventView {
        title: deciding_value(properties, SUMMARY@),
        start: timestamp_of(deciding_value(properties, DTSTART@)),
        end: timestamp_of(deciding_value(properties, DTEND@)),
        location: deciding_value(properties, LOCATION@),
        description: deciding_value(properties, DESCRIPTION@),
    }
}

/// The event `event` after one more property, `property`, was read.
pub open spec fn with_property(event: EventView, property: PropertyView) -> EventView {
    if property.name == SUMMARY@ {
        EventView { title: property.value, ..event }
    } else if property.name == DTSTART@ {
        EventView { start: timestamp_of(property.value), ..event }
    } else if property.name == DTEND@ {
        EventView { end: timestamp_of(property.value), ..event }
    } else if property.name == LOCATION@ {
        EventView { location: property.value, ..event }
    } else if property.name == DESCRIPTION@ {
        EventView { description: property.value, ..event }
    } else {
        event
    }
}

/// The five recognized names are five different texts.
pub proof fn lemma_names_differ()
    ensures
        SUMMARY@ != DTSTART@,
        SUMMARY@ != DTEND@,
        SUMMARY@ != LOCATION@,
        SUMMARY@ != DESCRIPTION@,
        DTSTART@ != DTEND@,
        DTSTART@ != LOCATION@,
        DTSTART@ != DESCRIPTION@,
        DTEND@ != LOCATION@,
        DTEND@ != DESCRIPTION@,
        LOCATION@ != DESCRIPTION@,
{
    reveal_strlit("SUMMARY");
    reveal_strlit("DTSTART");
    reveal_strlit("DTEND");
    reveal_strlit("LOCATION");
    reveal_strlit("DESCRIPTION");
    assert(SUMMARY@.len() == 7 && SUMMARY@[0] == 'S');
    assert(DTSTART@.len() == 7 && DTSTART@[0] == 'D');
    assert(DTEND@.len() == 5);
    assert(LOCATION@.len() == 8);
    assert(DESCRIPTION@.len() == 11);
}

/// Reading the properties one by one, each setting its field, ends in the
/// event that the whole list stands for.
pub proof fn lemma_event_of_push(properties: Seq<PropertyView>, property: PropertyView)
    ensures
        event_of(properties.push(property)) == with_property(event_of(properties), property),
{
    lemma_names_differ();
    let longer = properties.push(property);
    assert(longer.last() == property);
    assert(longer.drop_last() =~= properties);
}

/// Why a raw event could not be converted.
///
/// No property of the recognized set can make a conversion fail, so nothing
/// in this library gives this error; it is the place for what a later field
/// may refuse.
#[derive(Debug, Clone, Copy, PartialEq, Eq, Structural)]
pub enum ConversionError {
    Rejected,
}

impl Default for Event {
    fn default() -> (event: Event)
        ensures
            event@ == empty_event(),
    {
        Event { title: None, start: None, end: None, location: None, description: None }
    }
}

impl Event {
    /// Converts a raw event. Each property sets the field that its name
    /// stands for, a later one over an earlier one; a property of any other
    /// name is passed over.
    pub fn try_from(raw: RawEvent) -> (converted: Result<Event, ConversionError>)
        ensures
            converted matches Ok(event) && event@ == event_of(raw@),
    {
        let mut result = Event::default();
        let ghost all = raw@;
        for property in it: raw.properties.into_iter()
            invariant
                it.seq() == raw.properties@,
                all == property_views(raw.properties@),
                result@ == event_of(all.take(it.index() as int)),
        {
            proof {
                let read = all.take(it.index() as int);
                assert(all.take(it.index() + 1) =~= read.push(property@));
                lemma_event_of_push(read, property@);
            }
            let name = property.name.as_str();
            if same_text(name, SUMMARY) {
                result.title = property.value;
            } else if same_text(name, DTSTART) {
                result.start = parse_ical_utc_date_time(property.value);
            } else if same_text(name, DTEND) {
                result.end = parse_ical_utc_date_time(property.value);
            } else if same_text(name, LOCATION) {
                result.location = property.value;
            } else if same_text(name, DESCRIPTION) {
                result.description = property.value;
            }
        }
        assert(all.take(all.len() as int) =~= all);
        Ok(result)
    }
}

} // verus!
