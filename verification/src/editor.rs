//! The data editor's state: one tab each for girls, items and traits, and
//! the list operations of each tab (add a new entry, remove the selected one).
use vstd::prelude::*;
use crate::enums::{ItemType, Rarity, Stat};
use crate::girl::{blank_view, Girl, GirlView};
use crate::enums::EffectTarget;
use crate::girls::GirlManager;
use crate::item::{Effect, EffectView, Item, ItemView};
use crate::lua_text::{nat_str, push_nat};
use crate::traits::TraitDef;

verus! {

/// The girls tab: the girls being edited, the selection, whether there are
/// unsaved changes, the status line, the trait name being typed, and the
/// known trait definitions.
#[derive(Debug)]
pub struct GirlsTab {
    pub girls: Vec<Girl>,
    pub selected: Option<usize>,
    pub dirty: bool,
    pub status_msg: String,
    pub new_trait_name: String,
    pub trait_defs: Vec<TraitDef>,
}

/// The items tab: the items being edited, the selection, unsaved changes and status line.
#[derive(Debug)]
pub struct ItemsTab {
    pub items: Vec<Item>,
    pub selected: Option<usize>,
    pub dirty: bool,
    pub status_msg: String,
}

/// The traits tab: the trait definitions being edited, the selection, unsaved changes and status line.
#[derive(Debug)]
pub struct TraitsTab {
    pub traits_list: Vec<TraitDef>,
    pub selected: Option<usize>,
    pub dirty: bool,
    pub status_msg: String,
}

/// The tab on show.
#[derive(Debug, Clone, Copy, PartialEq, Eq, Structural)]
pub enum Tab {
    Girls,
    Items,
    Traits,
}

/// The editor: the tab on show and the three tabs.
#[derive(Debug)]
pub struct EditorApp {
    pub tab: Tab,
    pub girls_tab: GirlsTab,
    pub items_tab: ItemsTab,
    pub traits_tab: TraitsTab,
}

/// The selection after the entry at `idx` was removed from a list that now
/// has `len` entries: none when the list is empty, else the same position,
/// or the last entry when that position is gone.
pub open spec fn selection_after_removal(idx: int, len: int) -> Option<usize> {
    if len == 0 {
        None
    } else if idx < len - 1 {
        Some(idx as usize)
    } else {
        Some((len - 1) as usize)
    }
}

/// The name of the `n`-th new entry of a kind: the prefix and the number.
pub open spec fn numbered(prefix: Seq<char>, n: nat) -> Seq<char> {
    prefix + nat_str(n)
}

/// The model of a new girl: a blank girl named `New Girl n` with health 100,
/// happiness 50 and age 18.
pub open spec fn new_girl_view(n: nat) -> GirlView {
    GirlView {
        name: numbered("New Girl "@, n),
        stats: blank_view().stats.update(Stat::Health.spec_code(), 100i32).update(
            Stat::Happiness.spec_code(),
            50i32,
        ).update(Stat::Age.spec_code(), 18i32),
        ..blank_view()
    }
}

/// What a new item is: `New Item n`, a common misc item with empty texts and
/// every number zero, not infinite, without effects.
pub open spec fn is_new_item(it: Item, n: nat) -> bool {
    &&& it.name@ == numbered("New Item "@, n)
    &&& it.desc@.len() == 0
    &&& it.item_type == ItemType::Misc
    &&& it.badness == 0
    &&& it.special@.len() == 0
    &&& it.cost == 0
    &&& it.rarity == Rarity::Common
    &&& !it.infinite
    &&& it.girl_buy_chance == 0
    &&& it.effects@.len() == 0
}

fn numbered_text(prefix: &str, n: usize) -> (s: String)
    ensures
        s@ == numbered(prefix@, n as nat),
{
    let mut s = String::from_str(prefix);
    push_nat(&mut s, n as u64);
    s
}

impl GirlsTab {
    /// Add a new girl (see `new_girl_view`) at the end and select her.
    pub fn add_girl(&mut self)
        requires
            old(self).girls@.len() < usize::MAX,
        ensures
            final(self).girls@.len() == old(self).girls@.len() + 1,
            final(self).girls@.take(old(self).girls@.len() as int) == old(self).girls@,
            final(self).girls@.last()@ == new_girl_view((old(self).girls@.len() + 1) as nat),
            final(self).selected == Some(old(self).girls@.len() as usize),
            final(self).dirty,
            final(self).status_msg == old(self).status_msg,
            final(self).new_trait_name == old(self).new_trait_name,
            final(self).trait_defs == old(self).trait_defs,
    {
        let mut girl = Girl::new_blank();
        girl.name = numbered_text("New Girl ", self.girls.len() + 1);
        girl.stats[Stat::Health.code()] = 100;
        girl.stats[Stat::Happiness.code()] = 50;
        girl.stats[Stat::Age.code()] = 18;
        proof {
            reveal_strlit("New Girl ");
        }
        assert(girl@ =~= new_girl_view((old(self).girls@.len() + 1) as nat));
        self.girls.push(girl);
        assert(self.girls@.take(old(self).girls@.len() as int) =~= old(self).girls@);
        self.selected = Some(self.girls.len() - 1);
        self.dirty = true;
    }

    /// Remove the selected girl, if any; the selection moves as
    /// `selection_after_removal` says. Without a valid selection nothing changes.
    pub fn remove_girl(&mut self)
        ensures
            (match old(self).selected {
                Some(idx) => idx < old(self).girls@.len(),
                None => false,
            }) ==> {
                let idx = old(self).selected->0;
                &&& final(self).girls@ == old(self).girls@.remove(idx as int)
                &&& final(self).selected == selection_after_removal(idx as int, final(self).girls@.len() as int)
                &&& final(self).dirty
                &&& final(self).status_msg == old(self).status_msg
                &&& final(self).new_trait_name == old(self).new_trait_name
                &&& final(self).trait_defs == old(self).trait_defs
            },
            !(match old(self).selected {
                Some(idx) => idx < old(self).girls@.len(),
                None => false,
            }) ==> *final(self) == *old(self),
    {
        if let Some(idx) = self.selected {
            if idx < self.girls.len() {
                self.girls.remove(idx);
                self.selected = if self.girls.len() == 0 {
                    None
                } else if idx < self.girls.len() - 1 {
                    Some(idx)
                } else {
                    Some(self.girls.len() - 1)
                };
                self.dirty = true;
            }
        }
    }
}

impl ItemsTab {
    /// Add a new item (see `is_new_item`) at the end and select it.
    pub fn add_item(&mut self)
        requires
            old(self).items@.len() < usize::MAX,
        ensures
            final(self).items@.len() == old(self).items@.len() + 1,
            final(self).items@.take(old(self).items@.len() as int) == old(self).items@,
            is_new_item(final(self).items@.last(), (old(self).items@.len() + 1) as nat),
            final(self).selected == Some(old(self).items@.len() as usize),
            final(self).dirty,
            final(self).status_msg == old(self).status_msg,
    {
        let item = Item {
            name: numbered_text("New Item ", self.items.len() + 1),
            desc: String::new(),
            item_type: ItemType::Misc,
            badness: 0,
            special: String::new(),
            cost: 0,
            rarity: Rarity::Common,
            infinite: false,
            girl_buy_chance: 0,
            effects: Vec::<Effect>::new(),
        };
        proof {
            reveal_strlit("New Item ");
        }
        self.items.push(item);
        assert(self.items@.take(old(self).items@.len() as int) =~= old(self).items@);
        self.selected = Some(self.items.len() - 1);
        self.dirty = true;
    }

    /// Remove the selected item, if any; the selection moves as
    /// `selection_after_removal` says. Without a valid selection nothing changes.
    pub fn remove_item(&mut self)
        ensures
            (match old(self).selected {
                Some(idx) => idx < old(self).items@.len(),
                None => false,
            }) ==> {
                let idx = old(self).selected->0;
                &&& final(self).items@ == old(self).items@.remove(idx as int)
                &&& final(self).selected == selection_after_removal(idx as int, final(self).items@.len() as int)
                &&& final(self).dirty
                &&& final(self).status_msg == old(self).status_msg
            },
            !(match old(self).selected {
                Some(idx) => idx < old(self).items@.len(),
                None => false,
            }) ==> *final(self) == *old(self),
    {
        if let Some(idx) = self.selected {
            if idx < self.items.len() {
                self.items.remove(idx);
                self.selected = if self.items.len() == 0 {
                    None
                } else if idx < self.items.len() - 1 {
                    Some(idx)
                } else {
                    Some(self.items.len() - 1)
                };
                self.dirty = true;
            }
        }
    }
}

impl TraitsTab {
    /// Add a new trait named `New Trait n`, without description, at the end, and select it.
    pub fn add_trait(&mut self)
        requires
            old(self).traits_list@.len() < usize::MAX,
        ensures
            final(self).traits_list@.len() == old(self).traits_list@.len() + 1,
            final(self).traits_list@.take(old(self).traits_list@.len() as int) == old(self).traits_list@,
            final(self).traits_list@.last().name@ == numbered(
                "New Trait "@,
                (old(self).traits_list@.len() + 1) as nat,
            ),
            final(self).traits_list@.last().description@.len() == 0,
            final(self).selected == Some(old(self).traits_list@.len() as usize),
            final(self).dirty,
            final(self).status_msg == old(self).status_msg,
    {
        let t = TraitDef {
            name: numbered_text("New Trait ", self.traits_list.len() + 1),
            description: String::new(),
        };
        self.traits_list.push(t);
        assert(self.traits_list@.take(old(self).traits_list@.len() as int) =~= old(self).traits_list@);
        self.selected = Some(self.traits_list.len() - 1);
        self.dirty = true;
    }

    /// Remove the selected trait, if any; the selection moves as
    /// `selection_after_removal` says. Without a valid selection nothing changes.
    pub fn remove_trait(&mut self)
        ensures
            (match old(self).selected {
                Some(idx) => idx < old(self).traits_list@.len(),
                None => false,
            }) ==> {
                let idx = old(self).selected->0;
                &&& final(self).traits_list@ == old(self).traits_list@.remove(idx as int)
                &&& final(self).selected == selection_after_removal(
                    idx as int,
                    final(self).traits_list@.len() as int,
                )
                &&& final(self).dirty
                &&& final(self).status_msg == old(self).status_msg
            },
            !(match old(self).selected {
                Some(idx) => idx < old(self).traits_list@.len(),
                None => false,
            }) ==> *final(self) == *old(self),
    {
        if let Some(idx) = self.selected {
            if idx < self.traits_list.len() {
                self.traits_list.remove(idx);
                self.selected = if self.traits_list.len() == 0 {
                    None
                } else if idx < self.traits_list.len() - 1 {
                    Some(idx)
                } else {
                    Some(self.traits_list.len() - 1)
                };
                self.dirty = true;
            }
        }
    }
}

/// After a removal the selection is either empty, exactly when the list is,
/// or a position of the list.
pub proof fn law_selection_stays_valid(idx: int, len: int)
    requires
        0 <= idx,
        0 <= len,
    ensures
        selection_after_removal(idx, len) is None <==> len == 0,
        selection_after_removal(idx, len) matches Some(k) ==> k < len,
{
}

/// The status line after loading `n` entries of a kind from a file:
/// `Loaded <n> <kind> from <path>`.
pub open spec fn loaded_text(n: nat, kind: Seq<char>, path: Seq<char>) -> Seq<char> {
    "Loaded "@ + nat_str(n) + " "@ + kind + " from "@ + path
}

/// The status line after saving `n` entries of a kind to a file:
/// `Saved <n> <kind> to <path>`.
pub open spec fn saved_text(n: nat, kind: Seq<char>, path: Seq<char>) -> Seq<char> {
    "Saved "@ + nat_str(n) + " "@ + kind + " to "@ + path
}

/// The selection after a list was loaded: the first entry, none in an empty list.
pub open spec fn selection_after_load(len: nat) -> Option<usize> {
    if len == 0 {
        None
    } else {
        Some(0usize)
    }
}

fn count_text(prefix: &str, n: usize, kind: &str, mid: &str, path: &str) -> (s: String)
    ensures
        s@ == prefix@ + nat_str(n as nat) + " "@ + kind@ + mid@ + path@,
{
    let mut s = String::from_str(prefix);
    push_nat(&mut s, n as u64);
    s.append(" ");
    s.append(kind);
    s.append(mid);
    s.append(path);
    proof {
        reveal_strlit(" ");
    }
    s
}

/// The indices of the trait definitions whose name the girl does not carry, in order.
pub open spec fn trait_choices_spec(defs: Seq<TraitDef>, g: GirlView) -> Seq<usize>
    decreases defs.len(),
{
    if defs.len() == 0 {
        Seq::empty()
    } else {
        let r = trait_choices_spec(defs.drop_last(), g);
        if g.has_trait(defs.last().name@) {
            r
        } else {
            r.push((defs.len() - 1) as usize)
        }
    }
}

impl GirlsTab {
    /// Take over the girls read from a file: the status line reports the
    /// count and the file, the first girl is selected, nothing is unsaved.
    pub fn take_loaded(&mut self, girls: Vec<Girl>, path: &str)
        ensures
            final(self).girls == girls,
            final(self).status_msg@ == loaded_text(girls@.len(), "girls"@, path@),
            final(self).selected == selection_after_load(girls@.len()),
            !final(self).dirty,
            final(self).new_trait_name == old(self).new_trait_name,
            final(self).trait_defs == old(self).trait_defs,
    {
        self.status_msg = count_text("Loaded ", girls.len(), "girls", " from ", path);
        proof {
            reveal_strlit("Loaded ");
            reveal_strlit("girls");
            reveal_strlit(" from ");
        }
        self.selected = if girls.len() == 0 {
            None
        } else {
            Some(0)
        };
        self.girls = girls;
        self.dirty = false;
    }

    /// Record that the girls were saved to a file: the status line reports
    /// the count and the file, nothing is unsaved.
    pub fn mark_saved(&mut self, path: &str)
        ensures
            final(self).status_msg@ == saved_text(old(self).girls@.len(), "girls"@, path@),
            !final(self).dirty,
            final(self).girls == old(self).girls,
            final(self).selected == old(self).selected,
            final(self).new_trait_name == old(self).new_trait_name,
            final(self).trait_defs == old(self).trait_defs,
    {
        self.status_msg = count_text("Saved ", self.girls.len(), "girls", " to ", path);
        proof {
            reveal_strlit("Saved ");
            reveal_strlit("girls");
            reveal_strlit(" to ");
        }
        self.dirty = false;
    }

    /// The trait definitions that can still be given to the girl at `idx`:
    /// those whose name she does not carry, by index, in order.
    pub fn trait_choices(&self, idx: usize) -> (r: Vec<usize>)
        requires
            idx < self.girls@.len(),
        ensures
            r@ == trait_choices_spec(self.trait_defs@, self.girls@[idx as int]@),
    {
        let girl = &self.girls[idx];
        let mut r: Vec<usize> = Vec::new();
        let mut i: usize = 0;
        while i < self.trait_defs.len()
            invariant
                idx < self.girls@.len(),
                *girl == self.girls@[idx as int],
                0 <= i <= self.trait_defs@.len(),
                r@ == trait_choices_spec(self.trait_defs@.take(i as int), girl@),
            decreases self.trait_defs@.len() - i,
        {
            assert(self.trait_defs@.take(i + 1).drop_last() =~= self.trait_defs@.take(i as int));
            if !GirlManager::has_trait(girl, self.trait_defs[i].name.as_str()) {
                r.push(i);
            }
            i = i + 1;
        }
        assert(self.trait_defs@.take(i as int) =~= self.trait_defs@);
        r
    }

    /// The "Add Trait" action on the girl at `idx`: when a trait name was
    /// chosen, the girl gets it unless she has it already (which marks the
    /// list unsaved), and the choice is cleared.
    pub fn add_chosen_trait(&mut self, idx: usize)
        requires
            idx < old(self).girls@.len(),
        ensures
            old(self).new_trait_name@.len() == 0 ==> *final(self) == *old(self),
            old(self).new_trait_name@.len() > 0 ==> {
                let g = old(self).girls@[idx as int]@;
                let name = old(self).new_trait_name@;
                &&& final(self).girls@.len() == old(self).girls@.len()
                &&& final(self).girls@[idx as int]@ == g.with_trait(name)
                &&& forall|j: int|
                    0 <= j < old(self).girls@.len() && j != idx ==> #[trigger] final(self).girls@[j] == old(
                        self,
                    ).girls@[j]
                &&& final(self).dirty == (old(self).dirty || !g.has_trait(name))
                &&& final(self).new_trait_name@.len() == 0
                &&& final(self).selected == old(self).selected
                &&& final(self).status_msg == old(self).status_msg
                &&& final(self).trait_defs == old(self).trait_defs
            },
    {
        if self.new_trait_name.unicode_len() > 0 {
            let mut girl = self.girls.remove(idx);
            let ghost rest = self.girls@;
            if !GirlManager::has_trait(&girl, self.new_trait_name.as_str()) {
                GirlManager::add_trait(&mut girl, self.new_trait_name.as_str());
                self.dirty = true;
            }
            self.girls.insert(idx, girl);
            assert forall|j: int| 0 <= j < old(self).girls@.len() && j != idx implies #[trigger] self.girls@[j]
                == old(self).girls@[j] by {
                if j < idx {
                    assert(self.girls@[j] == rest[j]);
                } else {
                    assert(self.girls@[j] == rest[j - 1]);
                }
            }
            self.new_trait_name = String::new();
        }
    }

    /// Remove the trait at `trait_idx` from the girl at `idx`; the list is unsaved.
    pub fn remove_girl_trait(&mut self, idx: usize, trait_idx: usize)
        requires
            idx < old(self).girls@.len(),
            trait_idx < old(self).girls@[idx as int].traits@.len(),
        ensures
            final(self).girls@.len() == old(self).girls@.len(),
            final(self).girls@[idx as int]@ == (GirlView {
                traits: old(self).girls@[idx as int]@.traits.remove(trait_idx as int),
                ..old(self).girls@[idx as int]@
            }),
            forall|j: int|
                0 <= j < old(self).girls@.len() && j != idx ==> #[trigger] final(self).girls@[j] == old(
                    self,
                ).girls@[j],
            final(self).dirty,
            final(self).selected == old(self).selected,
            final(self).status_msg == old(self).status_msg,
            final(self).new_trait_name == old(self).new_trait_name,
            final(self).trait_defs == old(self).trait_defs,
    {
        let mut girl = self.girls.remove(idx);
        let ghost rest = self.girls@;
        let ghost before = girl@;
        girl.traits.remove(trait_idx);
        assert(girl@ =~= (GirlView { traits: before.traits.remove(trait_idx as int), ..before }));
        self.girls.insert(idx, girl);
        assert forall|j: int| 0 <= j < old(self).girls@.len() && j != idx implies #[trigger] self.girls@[j]
            == old(self).girls@[j] by {
            if j < idx {
                assert(self.girls@[j] == rest[j]);
            } else {
                assert(self.girls@[j] == rest[j - 1]);
            }
        }
        self.dirty = true;
    }
}

impl ItemsTab {
    /// Take over the items read from a file: the status line reports the
    /// count and the file, the first item is selected, nothing is unsaved.
    pub fn take_loaded(&mut self, items: Vec<Item>, path: &str)
        ensures
            final(self).items == items,
            final(self).status_msg@ == loaded_text(items@.len(), "items"@, path@),
            final(self).selected == selection_after_load(items@.len()),
            !final(self).dirty,
    {
        self.status_msg = count_text("Loaded ", items.len(), "items", " from ", path);
        proof {
            reveal_strlit("Loaded ");
            reveal_strlit("items");
            reveal_strlit(" from ");
        }
        self.selected = if items.len() == 0 {
            None
        } else {
            Some(0)
        };
        self.items = items;
        self.dirty = false;
    }

    /// Record that the items were saved to a file: the status line reports
    /// the count and the file, nothing is unsaved.
    pub fn mark_saved(&mut self, path: &str)
        ensures
            final(self).status_msg@ == saved_text(old(self).items@.len(), "items"@, path@),
            !final(self).dirty,
            final(self).items == old(self).items,
            final(self).selected == old(self).selected,
    {
        self.status_msg = count_text("Saved ", self.items.len(), "items", " to ", path);
        proof {
            reveal_strlit("Saved ");
            reveal_strlit("items");
            reveal_strlit(" to ");
        }
        self.dirty = false;
    }

    /// The "+ Add Effect" action on the item at `idx`: a stat effect with no
    /// name and amount 0 is added at the end; the list is unsaved.
    pub fn add_effect(&mut self, idx: usize)
        requires
            idx < old(self).items@.len(),
        ensures
            final(self).items@.len() == old(self).items@.len(),
            final(self).items@[idx as int]@ == (ItemView {
                effects: old(self).items@[idx as int]@.effects.push(
                    EffectView { target: EffectTarget::Stat, name: Seq::empty(), amount: 0 },
                ),
                ..old(self).items@[idx as int]@
            }),
            forall|j: int|
                0 <= j < old(self).items@.len() && j != idx ==> #[trigger] final(self).items@[j] == old(
                    self,
                ).items@[j],
            final(self).dirty,
            final(self).selected == old(self).selected,
            final(self).status_msg == old(self).status_msg,
    {
        let mut item = self.items.remove(idx);
        let ghost rest = self.items@;
        let ghost before = item@;
        item.effects.push(Effect { target: EffectTarget::Stat, name: String::new(), amount: 0 });
        assert(item@.effects =~= before.effects.push(
            EffectView { target: EffectTarget::Stat, name: Seq::empty(), amount: 0 },
        ));
        self.items.insert(idx, item);
        assert forall|j: int| 0 <= j < old(self).items@.len() && j != idx implies #[trigger] self.items@[j]
            == old(self).items@[j] by {
            if j < idx {
                assert(self.items@[j] == rest[j]);
            } else {
                assert(self.items@[j] == rest[j - 1]);
            }
        }
        self.dirty = true;
    }

    /// Remove the effect at `effect_idx` of the item at `idx`; the list is unsaved.
    pub fn remove_effect(&mut self, idx: usize, effect_idx: usize)
        requires
            idx < old(self).items@.len(),
            effect_idx < old(self).items@[idx as int].effects@.len(),
        ensures
            final(self).items@.len() == old(self).items@.len(),
            final(self).items@[idx as int]@ == (ItemView {
                effects: old(self).items@[idx as int]@.effects.remove(effect_idx as int),
                ..old(self).items@[idx as int]@
            }),
            forall|j: int|
                0 <= j < old(self).items@.len() && j != idx ==> #[trigger] final(self).items@[j] == old(
                    self,
                ).items@[j],
            final(self).dirty,
            final(self).selected == old(self).selected,
            final(self).status_msg == old(self).status_msg,
    {
        let mut item = self.items.remove(idx);
        let ghost rest = self.items@;
        let ghost before = item@;
        item.effects.remove(effect_idx);
        assert(item@.effects =~= before.effects.remove(effect_idx as int));
        self.items.insert(idx, item);
        assert forall|j: int| 0 <= j < old(self).items@.len() && j != idx implies #[trigger] self.items@[j]
            == old(self).items@[j] by {
            if j < idx {
                assert(self.items@[j] == rest[j]);
            } else {
                assert(self.items@[j] == rest[j - 1]);
            }
        }
        self.dirty = true;
    }
}

impl TraitsTab {
    /// Take over the trait definitions read from a file: the status line
    /// reports the count and the file, the first is selected, nothing is unsaved.
    pub fn take_loaded(&mut self, traits: Vec<TraitDef>, path: &str)
        ensures
            final(self).traits_list == traits,
            final(self).status_msg@ == loaded_text(traits@.len(), "traits"@, path@),
            final(self).selected == selection_after_load(traits@.len()),
            !final(self).dirty,
    {
        self.status_msg = count_text("Loaded ", traits.len(), "traits", " from ", path);
        proof {
            reveal_strlit("Loaded ");
            reveal_strlit("traits");
            reveal_strlit(" from ");
        }
        self.selected = if traits.len() == 0 {
            None
        } else {
            Some(0)
        };
        self.traits_list = traits;
        self.dirty = false;
    }

    /// Record that the trait definitions were saved to a file: the status
    /// line reports the count and the file, nothing is unsaved.
    pub fn mark_saved(&mut self, path: &str)
        ensures
            final(self).status_msg@ == saved_text(old(self).traits_list@.len(), "traits"@, path@),
            !final(self).dirty,
            final(self).traits_list == old(self).traits_list,
            final(self).selected == old(self).selected,
    {
        self.status_msg = count_text("Saved ", self.traits_list.len(), "traits", " to ", path);
        proof {
            reveal_strlit("Saved ");
            reveal_strlit("traits");
            reveal_strlit(" to ");
        }
        self.dirty = false;
    }
}

impl Default for GirlsTab {
    fn default() -> (t: GirlsTab)
        ensures
            t.girls@.len() == 0,
            t.selected is None,
            !t.dirty,
            t.status_msg@.len() == 0,
            t.new_trait_name@.len() == 0,
            t.trait_defs@.len() == 0,
    {
        GirlsTab {
            girls: Vec::new(),
            selected: None,
            dirty: false,
            status_msg: String::new(),
            new_trait_name: String::new(),
            trait_defs: Vec::new(),
        }
    }
}

impl Default for ItemsTab {
    fn default() -> (t: ItemsTab)
        ensures
            t.items@.len() == 0,
            t.selected is None,
            !t.dirty,
            t.status_msg@.len() == 0,
    {
        ItemsTab { items: Vec::new(), selected: None, dirty: false, status_msg: String::new() }
    }
}

impl Default for TraitsTab {
    fn default() -> (t: TraitsTab)
        ensures
            t.traits_list@.len() == 0,
            t.selected is None,
            !t.dirty,
            t.status_msg@.len() == 0,
    {
        TraitsTab { traits_list: Vec::new(), selected: None, dirty: false, status_msg: String::new() }
    }
}

impl Default for EditorApp {
    fn default() -> (a: EditorApp)
        ensures
            a.tab == Tab::Girls,
            a.girls_tab.girls@.len() == 0,
            a.items_tab.items@.len() == 0,
            a.traits_tab.traits_list@.len() == 0,
    {
        EditorApp {
            tab: Tab::Girls,
            girls_tab: GirlsTab::default(),
            items_tab: ItemsTab::default(),
            traits_tab: TraitsTab::default(),
        }
    }
}

} // verus!
