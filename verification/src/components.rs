//! The parts that menus are made of.

use crate::render::{
    one_span_region, single_span_region, Region, RegionSize, RegionView, RenderDescription, SpanView,
};
use vstd::prelude::*;

verus! {

/// An entry of a menu: `id` names it, `text` is what the player reads.
#[derive(Clone, PartialEq, Eq)]
pub struct Button {
    pub id: String,
    pub text: String,
}

impl Button {
    pub fn new(id: String, text: String) -> (button: Self)
        ensures
            button.id == id,
            button.text == text,
    {
        Button { id, text }
    }
}

/// What the entries of a menu show, from the first entry to the last.
pub open spec fn labels_of(buttons: Seq<Button>) -> Seq<Seq<char>> {
    Seq::new(buttons.len(), |i: int| buttons[i].text@)
}

/// The names of the entries of a menu, from the first entry to the last.
pub open spec fn ids_of(buttons: Seq<Button>) -> Seq<Seq<char>> {
    Seq::new(buttons.len(), |i: int| buttons[i].id@)
}

/// What the entries of a menu do, from the first entry to the last, where
/// `action_map` says for the name of an entry what it does.
pub open spec fn actions_of<A>(buttons: Seq<Button>, action_map: Map<Seq<char>, A>) -> Seq<A> {
    Seq::new(buttons.len(), |i: int| action_map[buttons[i].id@])
}

/// Whether `action_map` says of every entry what it does.
pub open spec fn all_mapped<A>(buttons: Seq<Button>, action_map: Map<Seq<char>, A>) -> bool {
    forall|i: int| 0 <= i < buttons.len() ==> action_map.contains_key(#[trigger] buttons[i].id@)
}

/// The model of a menu: its entries in order, each with its name, its label
/// and what it does when it is activated, and the index of the selected entry.
pub struct MenuView<A> {
    pub selected: int,
    pub ids: Seq<Seq<char>>,
    pub labels: Seq<Seq<char>>,
    pub actions: Seq<A>,
}

impl<A> MenuView<A> {
    /// A menu has at least one entry and at most 256, a name and an action for
    /// each, and the selection is on one of them.
    pub open spec fn wf(self) -> bool {
        &&& 0 <= self.selected < self.labels.len() <= 256
        &&& self.ids.len() == self.labels.len()
        &&& self.actions.len() == self.labels.len()
    }

    /// The menu after the selection has moved one entry up; on the first entry
    /// it stays.
    pub open spec fn prev(self) -> Self {
        MenuView { selected: if self.selected > 0 { self.selected - 1 } else { self.selected }, ..self }
    }

    /// The menu after the selection has moved one entry down; on the last entry
    /// it stays.
    pub open spec fn next(self) -> Self {
        MenuView {
            selected: if self.selected + 1 < self.labels.len() {
                self.selected + 1
            } else {
                self.selected
            },
            ..self
        }
    }

    /// What the selected entry does.
    pub open spec fn chosen(self) -> A {
        self.actions[self.selected]
    }

    /// The picture of the menu: a region of three rows for each entry, with its
    /// label, the selected one emphasised.
    pub open spec fn regions(self) -> Seq<RegionView> {
        menu_regions(self.labels, self.selected)
    }
}

/// A region of three rows for each label, the one at `selected` emphasised.
pub open spec fn menu_regions(labels: Seq<Seq<char>>, selected: int) -> Seq<RegionView> {
    Seq::new(
        labels.len(),
        |i: int|
            one_span_region(
                RegionSize::Length(3),
                SpanView { text: labels[i], emphasis: i == selected },
            ),
    )
}

/// The picture of a menu with entries `buttons`, entry `selected` selected.
pub fn render_menu(buttons: &Vec<Button>, selected: u8) -> (frame: RenderDescription)
    ensures
        frame@ == menu_regions(labels_of(buttons@), selected as int),
{
    let ghost labels = labels_of(buttons@);
    let ghost wanted = menu_regions(labels, selected as int);
    let mut regions: Vec<Region> = Vec::new();
    let mut i: usize = 0;
    while i < buttons.len()
        invariant
            i <= buttons.len(),
            labels == labels_of(buttons@),
            wanted == menu_regions(labels, selected as int),
            regions@.len() == i,
            forall|k: int| 0 <= k < i ==> (#[trigger] regions@[k])@ == wanted[k],
        decreases buttons.len() - i,
    {
        let region = single_span_region(
            RegionSize::Length(3),
            buttons[i].text.clone(),
            i == selected as usize,
        );
        regions.push(region);
        i += 1;
    }
    let frame = RenderDescription { regions };
    frame
}

} // verus!
