//! Calendar components as the feed's parser hands them over.

use crate::text::text_of;
use vstd::prelude::*;

verus! {

/// One property of a calendar component: a name and an optional value.
#[derive(Debug, Clone, PartialEq, Eq)]
pub struct RawProperty {
    pub name: String,
    pub value: Option<String>,
}

/// The characters of a property's name and of its value.
pub struct PropertyView {
    pub name: Seq<char>,
    pub value: Option<Seq<char>>,
}

impl View for RawProperty {
    type V = PropertyView;

    open spec fn view(&self) -> PropertyView {
        PropertyView { name: self.name@, value: text_of(self.value) }
    }
}

/// An event component: its properties in the order of the feed.
#[derive(Debug, Clone, PartialEq, Eq)]
pub struct RawEvent {
    pub properties: Vec<RawProperty>,
}

/// The views of `properties`, in their order.
pub open spec fn property_views(properties: Seq<RawProperty>) -> Seq<PropertyView> {
    properties.map_values(|property: RawProperty| property@)
}

impl View for RawEvent {
    type V = Seq<PropertyView>;

    open spec fn view(&self) -> Seq<PropertyView> {
        property_views(self.properties@)
    }
}

/// A calendar component, of which only the event components are kept.
#[derive(Debug, Clone, PartialEq, Eq)]
pub struct RawCalendar {
    pub events: Vec<RawEvent>,
}

/// The views of `events`, in their order.
pub open spec fn event_lists(events: Seq<RawEvent>) -> Seq<Seq<PropertyView>> {
    events.map_values(|event: RawEvent| event@)
}

impl View for RawCalendar {
    type V = Seq<Seq<PropertyView>>;

    open spec fn view(&self) -> Seq<Seq<PropertyView>> {
        event_lists(self.events@)
    }
}

} // verus!
