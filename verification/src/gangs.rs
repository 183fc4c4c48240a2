//! Gangs of goons: the player's hired gangs and the gangs available for hire.
use vstd::prelude::*;
use crate::enums::GangMission;

verus! {

/// A single gang.
#[derive(Debug)]
pub struct Gang {
    pub name: String,
    pub num_members: i32,
    pub max_members: i32,
    pub mission: GangMission,
    pub combat_skill: i32,
    pub magic_skill: i32,
    pub intelligence: i32,
    pub agility: i32,
    pub constitution: i32,
    pub charisma: i32,
    pub hired: bool,
    pub net_worth: i32,
    /// Whether the gang fought since this was last cleared.
    pub saw_combat: bool,
}

impl Default for Gang {
    fn default() -> (g: Gang)
        ensures
            g.name@ == Seq::<char>::empty(),
            g.num_members == 5,
            g.max_members == 15,
            g.mission == GangMission::Guarding,
            g.combat_skill == 50,
            g.magic_skill == 10,
            g.intelligence == 30,
            g.agility == 30,
            g.constitution == 30,
            g.charisma == 30,
            !g.hired,
            g.net_worth == 0,
            !g.saw_combat,
    {
        Gang {
            name: String::new(),
            num_members: 5,
            max_members: 15,
            mission: GangMission::Guarding,
            combat_skill: 50,
            magic_skill: 10,
            intelligence: 30,
            agility: 30,
            constitution: 30,
            charisma: 30,
            hired: false,
            net_worth: 0,
            saw_combat: false,
        }
    }
}

impl Gang {
    /// The skill a gang attacks with: magic when it is higher than combat, else combat.
    pub open spec fn attack_skill_spec(&self) -> i32 {
        if self.magic_skill > self.combat_skill {
            self.magic_skill
        } else {
            self.combat_skill
        }
    }

    /// The skill a gang attacks with (see `attack_skill_spec`).
    pub fn attack_skill(&self) -> (s: i32)
        ensures
            s == self.attack_skill_spec(),
    {
        if self.magic_skill > self.combat_skill {
            self.magic_skill
        } else {
            self.combat_skill
        }
    }
}

/// Manages hired and recruitable gangs.
#[derive(Debug)]
pub struct GangManager {
    pub hired_gangs: Vec<Gang>,
    pub recruit_list: Vec<Gang>,
}

impl GangManager {
    /// No gangs, hired or for hire.
    pub fn new() -> (m: GangManager)
        ensures
            m.hired_gangs@.len() == 0,
            m.recruit_list@.len() == 0,
    {
        GangManager { hired_gangs: Vec::new(), recruit_list: Vec::new() }
    }

    /// Hire the gang at `index` of the recruit list: it leaves the list, is
    /// marked hired and joins the hired gangs at the end. Returns whether
    /// there was such a gang; otherwise nothing changes.
    pub fn hire_gang(&mut self, index: usize) -> (ok: bool)
        ensures
            ok == (index < old(self).recruit_list@.len()),
            ok ==> {
                &&& final(self).recruit_list@ == old(self).recruit_list@.remove(index as int)
                &&& final(self).hired_gangs@ == old(self).hired_gangs@.push(
                    Gang { hired: true, ..old(self).recruit_list@[index as int] },
                )
            },
            !ok ==> final(self).recruit_list@ == old(self).recruit_list@ && final(self).hired_gangs@ == old(
                self,
            ).hired_gangs@,
    {
        if index < self.recruit_list.len() {
            let mut gang = self.recruit_list.remove(index);
            gang.hired = true;
            self.hired_gangs.push(gang);
            true
        } else {
            false
        }
    }

    /// Dismiss the hired gang at `index`, if there is one.
    pub fn fire_gang(&mut self, index: usize)
        ensures
            index < old(self).hired_gangs@.len() ==> final(self).hired_gangs@ == old(
                self,
            ).hired_gangs@.remove(index as int),
            index >= old(self).hired_gangs@.len() ==> final(self).hired_gangs@ == old(self).hired_gangs@,
            final(self).recruit_list@ == old(self).recruit_list@,
    {
        if index < self.hired_gangs.len() {
            self.hired_gangs.remove(index);
        }
    }

    /// Send the hired gang at `gang_index` on a mission, if there is one.
    pub fn set_mission(&mut self, gang_index: usize, mission: GangMission)
        ensures
            gang_index < old(self).hired_gangs@.len() ==> final(self).hired_gangs@ == old(
                self,
            ).hired_gangs@.update(
                gang_index as int,
                Gang { mission, ..old(self).hired_gangs@[gang_index as int] },
            ),
            gang_index >= old(self).hired_gangs@.len() ==> final(self).hired_gangs@ == old(self).hired_gangs@,
            final(self).recruit_list@ == old(self).recruit_list@,
    {
        if gang_index < self.hired_gangs.len() {
            let mut gang = self.hired_gangs.remove(gang_index);
            gang.mission = mission;
            self.hired_gangs.insert(gang_index, gang);
        }
    }
}

impl Default for GangManager {
    fn default() -> (m: GangManager)
        ensures
            m.hired_gangs@.len() == 0,
            m.recruit_list@.len() == 0,
    {
        GangManager::new()
    }
}

} // verus!
