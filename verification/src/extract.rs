//! From a feed's text to its events: all of them, or one error.

use crate::event::{event_of, ConversionError, Event, EventView};
use crate::raw::{event_lists, PropertyView, RawCalendar, RawEvent, RawProperty};
use ical::parser::ParserError;
use vstd::prelude::*;

verus! {

/// `ical::parser::ParserError`, carried as it is: nothing is said of what
/// it holds.
#[verifier::external_type_specification]
#[verifier::external_body]
pub struct ExParserError(ParserError);

/// Why a feed gave no events.
#[derive(Debug)]
pub enum ExtractError {
    /// The feed holds no calendar component.
    NoCalendar,
    /// The feed's first calendar component could not be read; the parser's
    /// own error says why.
    Unparsable(ParserError),
    /// One of the calendar's events could not be converted.
    ConversionFailed(ConversionError),
}

/// What is said of a feed without a calendar.
pub const NO_CALENDAR: &'static str = "no calendar found in ical file";

/// What is said of an event that could not be converted.
pub const NOT_CONVERTED: &'static str = "could not convert events";

impl ExtractError {
    /// The words for this error. For a calendar that could not be read they
    /// are empty: the parser's own error is the whole description.
    pub open spec fn message_text(&self) -> Seq<char> {
        match self {
            ExtractError::NoCalendar => NO_CALENDAR@,
            ExtractError::Unparsable(_) => Seq::empty(),
            ExtractError::ConversionFailed(_) => NOT_CONVERTED@,
        }
    }

    /// The words for this error, to show to a person.
    pub fn message(&self) -> (text: String)
        ensures
            text@ == self.message_text(),
    {
        match self {
            ExtractError::NoCalendar => NO_CALENDAR.to_owned(),
            ExtractError::Unparsable(_) => String::new(),
            ExtractError::ConversionFailed(_) => NOT_CONVERTED.to_owned(),
        }
    }
}

/// What the parser makes of a feed, as far as this library reads it.
pub enum FeedView {
    /// The feed holds no component at all.
    Empty,
    /// The first component is no well-formed calendar.
    Broken,
    /// The property lists of the first calendar's events, in their order.
    Calendar(Seq<Seq<PropertyView>>),
}

/// What `ical::IcalParser` yields first on the text `feed`.
pub uninterp spec fn first_calendar(feed: Seq<char>) -> FeedView;

/// A parser's first item, as far as this library reads it.
pub open spec fn feed_view(parsed: Option<Result<RawCalendar, ParserError>>) -> FeedView {
    match parsed {
        None => FeedView::Empty,
        Some(Err(_)) => FeedView::Broken,
        Some(Ok(calendar)) => FeedView::Calendar(calendar@),
    }
}

/// The views of `events`, in their order.
pub open spec fn events_view(events: Seq<Event>) -> Seq<EventView> {
    events.map_values(|event: Event| event@)
}

/// The events that a calendar's property lists stand for, one for one and in
/// the same order.
pub open spec fn events_of(lists: Seq<Seq<PropertyView>>) -> Seq<EventView> {
    lists.map_values(|properties: Seq<PropertyView>| event_of(properties))
}

/// Whether `extracted` is what a feed with the parse `outcome` gives.
pub open spec fn is_extraction_of(
    outcome: FeedView,
    extracted: Result<Vec<Event>, ExtractError>,
) -> bool {
    match outcome {
        FeedView::Empty => extracted matches Err(ExtractError::NoCalendar),
        FeedView::Broken => extracted matches Err(ExtractError::Unparsable(_)),
        FeedView::Calendar(lists) => extracted matches Ok(events) && events_view(events@)
            == events_of(lists),
    }
}

/// Runs `ical::IcalParser` over `feed` and takes the first item it yields,
/// keeping of a calendar the name and the value of each property of each
/// event component.
///
/// Trusted: the contract only gives the outcome its name, `first_calendar`.
/// That claims that the outcome depends on the text and on nothing else.
#[verifier::external_body]
fn read_first_calendar(feed: &str) -> (parsed: Option<Result<RawCalendar, ParserError>>)
    ensures
        feed_view(parsed) == first_calendar(feed@),
{
    ical::IcalParser::new(feed.as_bytes()).next().map(|first| first.map(|calendar| RawCalendar {
        events: calendar.events.into_iter().map(|event| RawEvent {
            properties: event.properties.into_iter().map(|property| RawProperty {
                name: property.name,
                value: property.value,
            }).collect(),
        }).collect(),
    }))
}

/// Converts the events of a calendar, in their order. The first event that
/// cannot be converted ends the run, and nothing of the others is returned.
///
/// With the recognized properties no conversion fails, so the result is
/// always the whole list.
pub fn convert_events(events: Vec<RawEvent>) -> (converted: Result<Vec<Event>, ExtractError>)
    ensures
        converted matches Ok(list) && list@.len() == events@.len() && events_view(list@)
            == events_of(event_lists(events@)),
{
    let mut list: Vec<Event> = Vec::new();
    let ghost lists = event_lists(events@);
    for raw in it: events.into_iter()
        invariant
            it.seq() == events@,
            lists == event_lists(events@),
            events_view(list@) == events_of(lists.take(it.index() as int)),
    {
        match Event::try_from(raw) {
            Ok(event) => {
                proof {
                    let done = lists.take(it.index() as int);
                    assert(lists.take(it.index() + 1) =~= done.push(raw@));
                    assert(events_of(done.push(raw@)) =~= events_of(done).push(event@));
                    assert(events_view(list@.push(event)) =~= events_view(list@).push(event@));
                }
                list.push(event);
            },
            Err(error) => {
                return Err(ExtractError::ConversionFailed(error));
            },
        }
    }
    assert(lists.take(lists.len() as int) =~= lists);
    Ok(list)
}

/// Decides what a parse of the feed gives: the events of the calendar, or
/// the error that says why there are none.
pub fn events_from_parse(parsed: Option<Result<RawCalendar, ParserError>>) -> (extracted: Result<
    Vec<Event>,
    ExtractError,
>)
    ensures
        match parsed {
            None => extracted matches Err(ExtractError::NoCalendar),
            Some(Err(error)) => extracted matches Err(ExtractError::Unparsable(kept)) && kept
                == error,
            Some(Ok(calendar)) => extracted matches Ok(events) && events_view(events@)
                == events_of(calendar@),
        },
        is_extraction_of(feed_view(parsed), extracted),
{
    match parsed {
        None => Err(ExtractError::NoCalendar),
        Some(Err(error)) => Err(ExtractError::Unparsable(error)),
        Some(Ok(calendar)) => convert_events(calendar.events),
    }
}

/// Extracts the events of the first calendar in `feed`.
pub fn extract_events(feed: &str) -> (extracted: Result<Vec<Event>, ExtractError>)
    ensures
        is_extraction_of(first_calendar(feed@), extracted),
{
    events_from_parse(read_first_calendar(feed))
}

} // verus!
