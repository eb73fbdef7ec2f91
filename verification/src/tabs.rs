//! The state behind the consumer's panels: what each tab remembers
//! between refreshes. Rendering lives outside the library; everything the
//! renderer reads or toggles is plain data specified here.

use vstd::prelude::*;

use crate::message::{Event, QoS};
use crate::subscription::{Color, Subcribe};

verus! {

/// The event-log view with a text filter.
pub struct ChatView {
    pub title: String,
    pub filter: String,
}

impl ChatView {
    pub fn new(title: String) -> (v: Self)
        ensures
            v.title@ == title@,
            v.filter@ == Seq::<char>::empty(),
    {
        ChatView { title, filter: String::new() }
    }

    pub fn title(&self) -> (t: &String)
        ensures
            t@ == self.title@,
    {
        &self.title
    }
}

/// The topic-tree view.
pub struct TreeView {
    pub title: String,
}

impl TreeView {
    pub fn new(title: String) -> (v: Self)
        ensures
            v.title@ == title@,
    {
        TreeView { title }
    }

    pub fn title(&self) -> (t: &String)
        ensures
            t@ == self.title@,
    {
        &self.title
    }
}

/// Which traffic directions the event tab shows.
pub struct Direct {
    pub published: bool,
    pub received: bool,
}

impl Default for Direct {
    /// Neither direction selected.
    fn default() -> (d: Self)
        ensures
            !d.published,
            !d.received,
    {
        Direct { published: false, received: false }
    }
}

/// The event tab's display filter: directions, a topic needle and a
/// content needle.
pub struct Filter {
    pub direct: Direct,
    pub topic: String,
    pub content: String,
}

impl Default for Filter {
    /// An empty filter.
    fn default() -> (f: Self)
        ensures
            !f.direct.published,
            !f.direct.received,
            f.topic@ == Seq::<char>::empty(),
            f.content@ == Seq::<char>::empty(),
    {
        Filter { direct: Direct::default(), topic: String::new(), content: String::new() }
    }
}

impl Filter {
    /// Whether the filter shows the event. Every event passes: the
    /// display filter is not wired up yet.
    pub fn filter(&self, _event: &Event) -> (shown: bool)
        ensures
            shown,
    {
        true
    }
}

/// The event tab: its display filter and the subscription being composed.
pub struct ChatTab {
    pub filter: Filter,
    pub subcribe: Subcribe,
}

impl ChatTab {
    /// A fresh event tab: an empty filter and a catch-all subscription
    /// drawn in green, at most once.
    pub fn new() -> (t: Self)
        ensures
            !t.filter.direct.published,
            !t.filter.direct.received,
            t.filter.topic@ == Seq::<char>::empty(),
            t.filter.content@ == Seq::<char>::empty(),
            t.subcribe.topic@ == "#"@,
            t.subcribe.qos == QoS::AtMostOnce,
            t.subcribe.color == (Color { r: 0, g: 255, b: 0, a: 255 }),
    {
        ChatTab {
            filter: Filter::default(),
            subcribe: Subcribe {
                topic: "#".to_owned(),
                qos: QoS::AtMostOnce,
                color: Color { r: 0, g: 255, b: 0, a: 255 },
            },
        }
    }
}

/// The publish tab: the message being composed.
pub struct PubulishTab {
    pub topic: String,
    pub qos: QoS,
    pub retain: bool,
    pub payload: String,
}

impl PubulishTab {
    /// A fresh publish tab: everything empty, delivered at least once,
    /// not retained.
    pub fn new() -> (t: Self)
        ensures
            t.topic@ == Seq::<char>::empty(),
            t.qos == QoS::AtLeastOnce,
            !t.retain,
            t.payload@ == Seq::<char>::empty(),
    {
        PubulishTab {
            topic: String::new(),
            qos: QoS::AtLeastOnce,
            retain: false,
            payload: String::new(),
        }
    }
}

/// The statistics tab; it holds no state yet.
pub struct StatTab {}

impl StatTab {
    pub fn new() -> (t: Self) {
        StatTab {  }
    }
}

/// One packet entry as a panel shows it.
pub struct PacketUI {
    pub event: Event,
}

impl PacketUI {
    pub fn new(pkt: Event) -> (p: Self)
        ensures
            p.event == pkt,
    {
        PacketUI { event: pkt }
    }
}

/// Whether a collapsible panel is open; kept across refreshes.
#[derive(Clone, Copy, Debug, PartialEq, Eq, Structural)]
pub struct State {
    pub open: bool,
}

impl Default for State {
    /// Closed.
    fn default() -> (s: Self)
        ensures
            !s.open,
    {
        State { open: false }
    }
}

impl State {
    /// Flips the panel open or closed.
    pub fn toggle(&mut self)
        ensures
            final(self).open == !old(self).open,
    {
        self.open = !self.open;
    }
}

} // verus!
