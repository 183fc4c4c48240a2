//! Game enumerations and their numeric codes.
use vstd::prelude::*;

verus! {

/// The 22 girl stats.
#[derive(Debug, Clone, Copy, PartialEq, Eq, Structural, Hash)]
pub enum Stat {
    Charisma,
    Happiness,
    Libido,
    Constitution,
    Intelligence,
    Confidence,
    Mana,
    Agility,
    Fame,
    Level,
    AskPrice,
    HousePerc,
    Exp,
    Age,
    Obedience,
    Spirit,
    Beauty,
    Tiredness,
    Health,
    PCFear,
    PCLove,
    PCHate,
}

impl Stat {
    /// The numeric code of the variant, in declaration order.
    pub open spec fn spec_code(self) -> int {
        match self {
            Stat::Charisma => 0,
            Stat::Happiness => 1,
            Stat::Libido => 2,
            Stat::Constitution => 3,
            Stat::Intelligence => 4,
            Stat::Confidence => 5,
            Stat::Mana => 6,
            Stat::Agility => 7,
            Stat::Fame => 8,
            Stat::Level => 9,
            Stat::AskPrice => 10,
            Stat::HousePerc => 11,
            Stat::Exp => 12,
            Stat::Age => 13,
            Stat::Obedience => 14,
            Stat::Spirit => 15,
            Stat::Beauty => 16,
            Stat::Tiredness => 17,
            Stat::Health => 18,
            Stat::PCFear => 19,
            Stat::PCLove => 20,
            Stat::PCHate => 21,
        }
    }

    /// The numeric code of the variant (its index in per-variant arrays).
    pub fn code(self) -> (i: usize)
        ensures i == self.spec_code(), i < 22,
    {
        match self {
            Stat::Charisma => 0,
            Stat::Happiness => 1,
            Stat::Libido => 2,
            Stat::Constitution => 3,
            Stat::Intelligence => 4,
            Stat::Confidence => 5,
            Stat::Mana => 6,
            Stat::Agility => 7,
            Stat::Fame => 8,
            Stat::Level => 9,
            Stat::AskPrice => 10,
            Stat::HousePerc => 11,
            Stat::Exp => 12,
            Stat::Age => 13,
            Stat::Obedience => 14,
            Stat::Spirit => 15,
            Stat::Beauty => 16,
            Stat::Tiredness => 17,
            Stat::Health => 18,
            Stat::PCFear => 19,
            Stat::PCLove => 20,
            Stat::PCHate => 21,
        }
    }

    /// The variant whose code is `i`, if there is one.
    pub open spec fn spec_from_code(i: int) -> Option<Stat> {
        if i == 0 {
            Some(Stat::Charisma)
        } else if i == 1 {
            Some(Stat::Happiness)
        } else if i == 2 {
            Some(Stat::Libido)
        } else if i == 3 {
            Some(Stat::Constitution)
        } else if i == 4 {
            Some(Stat::Intelligence)
        } else if i == 5 {
            Some(Stat::Confidence)
        } else if i == 6 {
            Some(Stat::Mana)
        } else if i == 7 {
            Some(Stat::Agility)
        } else if i == 8 {
            Some(Stat::Fame)
        } else if i == 9 {
            Some(Stat::Level)
        } else if i == 10 {
            Some(Stat::AskPrice)
        } else if i == 11 {
            Some(Stat::HousePerc)
        } else if i == 12 {
            Some(Stat::Exp)
        } else if i == 13 {
            Some(Stat::Age)
        } else if i == 14 {
            Some(Stat::Obedience)
        } else if i == 15 {
            Some(Stat::Spirit)
        } else if i == 16 {
            Some(Stat::Beauty)
        } else if i == 17 {
            Some(Stat::Tiredness)
        } else if i == 18 {
            Some(Stat::Health)
        } else if i == 19 {
            Some(Stat::PCFear)
        } else if i == 20 {
            Some(Stat::PCLove)
        } else if i == 21 {
            Some(Stat::PCHate)
        } else {
            None
        }
    }

    /// The variant whose code is `i`, if there is one.
    pub fn from_code(i: usize) -> (r: Option<Stat>)
        ensures
            r == Self::spec_from_code(i as int),
            r matches Some(v) ==> v.spec_code() == i,
            r is Some <==> i < 22,
    {
        match i {
            0 => Some(Stat::Charisma),
            1 => Some(Stat::Happiness),
            2 => Some(Stat::Libido),
            3 => Some(Stat::Constitution),
            4 => Some(Stat::Intelligence),
            5 => Some(Stat::Confidence),
            6 => Some(Stat::Mana),
            7 => Some(Stat::Agility),
            8 => Some(Stat::Fame),
            9 => Some(Stat::Level),
            10 => Some(Stat::AskPrice),
            11 => Some(Stat::HousePerc),
            12 => Some(Stat::Exp),
            13 => Some(Stat::Age),
            14 => Some(Stat::Obedience),
            15 => Some(Stat::Spirit),
            16 => Some(Stat::Beauty),
            17 => Some(Stat::Tiredness),
            18 => Some(Stat::Health),
            19 => Some(Stat::PCFear),
            20 => Some(Stat::PCLove),
            21 => Some(Stat::PCHate),
            _ => None,
        }
    }
}

/// The 10 girl skills.
#[derive(Debug, Clone, Copy, PartialEq, Eq, Structural, Hash)]
pub enum Skill {
    Anal,
    Magic,
    BDSM,
    NormalSex,
    Beastiality,
    Group,
    Lesbian,
    Service,
    Strip,
    Combat,
}

impl Skill {
    /// The numeric code of the variant, in declaration order.
    pub open spec fn spec_code(self) -> int {
        match self {
            Skill::Anal => 0,
            Skill::Magic => 1,
            Skill::BDSM => 2,
            Skill::NormalSex => 3,
            Skill::Beastiality => 4,
            Skill::Group => 5,
            Skill::Lesbian => 6,
            Skill::Service => 7,
            Skill::Strip => 8,
            Skill::Combat => 9,
        }
    }

    /// The numeric code of the variant (its index in per-variant arrays).
    pub fn code(self) -> (i: usize)
        ensures i == self.spec_code(), i < 10,
    {
        match self {
            Skill::Anal => 0,
            Skill::Magic => 1,
            Skill::BDSM => 2,
            Skill::NormalSex => 3,
            Skill::Beastiality => 4,
            Skill::Group => 5,
            Skill::Lesbian => 6,
            Skill::Service => 7,
            Skill::Strip => 8,
            Skill::Combat => 9,
        }
    }

    /// The variant whose code is `i`, if there is one.
    pub open spec fn spec_from_code(i: int) -> Option<Skill> {
        if i == 0 {
            Some(Skill::Anal)
        } else if i == 1 {
            Some(Skill::Magic)
        } else if i == 2 {
            Some(Skill::BDSM)
        } else if i == 3 {
            Some(Skill::NormalSex)
        } else if i == 4 {
            Some(Skill::Beastiality)
        } else if i == 5 {
            Some(Skill::Group)
        } else if i == 6 {
            Some(Skill::Lesbian)
        } else if i == 7 {
            Some(Skill::Service)
        } else if i == 8 {
            Some(Skill::Strip)
        } else if i == 9 {
            Some(Skill::Combat)
        } else {
            None
        }
    }

    /// The variant whose code is `i`, if there is one.
    pub fn from_code(i: usize) -> (r: Option<Skill>)
        ensures
            r == Self::spec_from_code(i as int),
            r matches Some(v) ==> v.spec_code() == i,
            r is Some <==> i < 10,
    {
        match i {
            0 => Some(Skill::Anal),
            1 => Some(Skill::Magic),
            2 => Some(Skill::BDSM),
            3 => Some(Skill::NormalSex),
            4 => Some(Skill::Beastiality),
            5 => Some(Skill::Group),
            6 => Some(Skill::Lesbian),
            7 => Some(Skill::Service),
            8 => Some(Skill::Strip),
            9 => Some(Skill::Combat),
            _ => None,
        }
    }
}

/// Status conditions a girl can carry.
#[derive(Debug, Clone, Copy, PartialEq, Eq, Structural, Hash)]
pub enum Status {
    NoStatus,
    Poisoned,
    BadlyPoisoned,
    Pregnant,
    PregnantByPlayer,
    Slave,
    HasDaughter,
    HasSon,
    Inseminated,
    Controlled,
    Catacombs,
}

impl Status {
    /// The numeric code of the variant, in declaration order.
    pub open spec fn spec_code(self) -> int {
        match self {
            Status::NoStatus => 0,
            Status::Poisoned => 1,
            Status::BadlyPoisoned => 2,
            Status::Pregnant => 3,
            Status::PregnantByPlayer => 4,
            Status::Slave => 5,
            Status::HasDaughter => 6,
            Status::HasSon => 7,
            Status::Inseminated => 8,
            Status::Controlled => 9,
            Status::Catacombs => 10,
        }
    }

    /// The numeric code of the variant (its index in per-variant arrays).
    pub fn code(self) -> (i: usize)
        ensures i == self.spec_code(), i < 11,
    {
        match self {
            Status::NoStatus => 0,
            Status::Poisoned => 1,
            Status::BadlyPoisoned => 2,
            Status::Pregnant => 3,
            Status::PregnantByPlayer => 4,
            Status::Slave => 5,
            Status::HasDaughter => 6,
            Status::HasSon => 7,
            Status::Inseminated => 8,
            Status::Controlled => 9,
            Status::Catacombs => 10,
        }
    }

    /// The variant whose code is `i`, if there is one.
    pub open spec fn spec_from_code(i: int) -> Option<Status> {
        if i == 0 {
            Some(Status::NoStatus)
        } else if i == 1 {
            Some(Status::Poisoned)
        } else if i == 2 {
            Some(Status::BadlyPoisoned)
        } else if i == 3 {
            Some(Status::Pregnant)
        } else if i == 4 {
            Some(Status::PregnantByPlayer)
        } else if i == 5 {
            Some(Status::Slave)
        } else if i == 6 {
            Some(Status::HasDaughter)
        } else if i == 7 {
            Some(Status::HasSon)
        } else if i == 8 {
            Some(Status::Inseminated)
        } else if i == 9 {
            Some(Status::Controlled)
        } else if i == 10 {
            Some(Status::Catacombs)
        } else {
            None
        }
    }

    /// The variant whose code is `i`, if there is one.
    pub fn from_code(i: usize) -> (r: Option<Status>)
        ensures
            r == Self::spec_from_code(i as int),
            r matches Some(v) ==> v.spec_code() == i,
            r is Some <==> i < 11,
    {
        match i {
            0 => Some(Status::NoStatus),
            1 => Some(Status::Poisoned),
            2 => Some(Status::BadlyPoisoned),
            3 => Some(Status::Pregnant),
            4 => Some(Status::PregnantByPlayer),
            5 => Some(Status::Slave),
            6 => Some(Status::HasDaughter),
            7 => Some(Status::HasSon),
            8 => Some(Status::Inseminated),
            9 => Some(Status::Controlled),
            10 => Some(Status::Catacombs),
            _ => None,
        }
    }
}

/// Jobs a girl can be assigned to.
#[derive(Debug, Clone, Copy, PartialEq, Eq, Structural, Hash)]
pub enum JobType {
    Resting,
    Training,
    Cleaning,
    Security,
    Advertising,
    Matron,
    Torturer,
    ExploreCatacombs,
    BeastCapture,
    BeastCarer,
    WhoreBrothel,
    WhoreStreets,
    BrothelStripper,
    Masseuse,
    CustomerService,
    WhoreGambHall,
    Dealer,
    Entertainment,
    XXXEntertainment,
    Barmaid,
    Waitress,
    Stripper,
    WhoreBar,
    Singer,
    FilmBeast,
    FilmSex,
    FilmAnal,
    FilmLesbian,
    FilmBondage,
    Fluffer,
    CameraMage,
    CrystalPurifier,
    CollectDonations,
    FeedPoor,
    MakeItems,
    SellItems,
    CommunityService,
    VirasPlantFucker,
    ShroudGrower,
    FairyDuster,
    DrugDealer,
    FindRegents,
    BrewPotions,
    PotionTester,
    FightBeasts,
    Wrestle,
    FightToDeath,
    FightVolunteers,
    CollectBets,
    TeachBDSM,
    TeachSex,
    TeachBeast,
    TeachMagic,
    TeachCombat,
    Daycare,
    Schooling,
    TeachDancing,
    TeachService,
    Train,
    Doctor,
    GetAbort,
    PhysicalSurgery,
    Healing,
    RepairShop,
    InDungeon,
    Runaway,
}

/// Building a job belongs to.
#[derive(Debug, Clone, Copy, PartialEq, Eq, Structural, Hash)]
pub enum JobFilter {
    General,
    Brothel,
    GamblingHall,
    Bar,
    MovieStudio,
    CommunityCentre,
    DrugLab,
    AlchemistLab,
    Arena,
    TrainingCentre,
    Clinic,
}

/// Kinds of item.
#[derive(Debug, Clone, Copy, PartialEq, Eq, Structural, Hash)]
pub enum ItemType {
    Food,
    Ring,
    Necklace,
    Dress,
    Underwear,
    Shoes,
    Hat,
    Helmet,
    SmallWeapon,
    LargeWeapon,
    Armor,
    Shield,
    Consumable,
    Makeup,
    Misc,
}

/// What an item effect changes.
#[derive(Debug, Clone, Copy, PartialEq, Eq, Structural, Hash)]
pub enum EffectTarget {
    Stat,
    Skill,
    Trait,
}

/// How an item can be obtained.
#[derive(Debug, Clone, Copy, PartialEq, Eq, Structural, Hash)]
pub enum Rarity {
    Common,
    Shop50,
    Shop25,
    Shop05,
    Catacomb15,
    ScriptOnly,
    Reward,
}

/// Kinds of script trigger.
#[derive(Debug, Clone, Copy, PartialEq, Eq, Structural, Hash)]
pub enum TriggerType {
    Random,
    Shopping,
    Skill,
    Stat,
    Status,
    Money,
    Meet,
    Talk,
    WeeksPast,
    GlobalFlag,
    ScriptRun,
    Kidnapped,
    PlayerMoney,
}

/// Work shift.
#[derive(Debug, Clone, Copy, PartialEq, Eq, Structural, Hash)]
pub enum Shift {
    Day,
    Night,
}

/// Missions a gang can be sent on.
#[derive(Debug, Clone, Copy, PartialEq, Eq, Structural, Hash)]
pub enum GangMission {
    Guarding,
    Sabotage,
    SpyGirls,
    CaptureGirl,
    Extortion,
    PettyTheft,
    GrandTheft,
    Kidnap,
    Catacombs,
    Training,
    Recruit,
}

/// Why someone is held in the dungeon.
#[derive(Debug, Clone, Copy, PartialEq, Eq, Structural, Hash)]
pub enum DungeonReason {
    Release,
    CustomerNoPay,
    GirlCaptured,
    GirlKidnapped,
    CustomerBeatGirl,
    CustomerSpy,
    Rival,
    GirlWhim,
    GirlSteal,
    Dead,
    GirlRunaway,
    NewSlave,
    NewGirl,
    Kid,
}

/// Kinds of action a girl can enjoy or not.
#[derive(Debug, Clone, Copy, PartialEq, Eq, Structural, Hash)]
pub enum ActionType {
    Combat,
    Sex,
    General,
    WorkCleaning,
    WorkMatron,
    WorkBar,
    WorkHall,
    WorkShow,
    WorkSecurity,
    WorkAdvertising,
    WorkTorturer,
    WorkCaring,
}

/// Kinds of girl image.
#[derive(Debug, Clone, Copy, PartialEq, Eq, Structural, Hash)]
pub enum ImageType {
    Anal,
    BDSM,
    Sex,
    Beast,
    Group,
    Lesbian,
    Pregnant,
    Death,
    Profile,
    PregAnal,
    PregBDSM,
    PregSex,
    PregBeast,
    PregGroup,
    PregLesbian,
}

/// Global game flags.
#[derive(Debug, Clone, Copy, PartialEq, Eq, Structural, Hash)]
pub enum GameFlag {
    CustomerNoPay,
    DungeonGirlDie,
    DungeonCustomerDie,
    CustomerGamblingCheat,
    RivalLose,
}

/// How well a girl is housed.
#[derive(Debug, Clone, Copy, PartialEq, Eq, Structural, Hash)]
pub enum AccommodationLevel {
    Slave,
    VeryPoor,
    Poor,
    Normal,
    Good,
    VeryGood,
    Excellent,
}

/// Number of stats.
pub const STAT_COUNT: usize = 22;
/// Number of skills.
pub const SKILL_COUNT: usize = 10;
/// Number of status conditions.
pub const STATUS_COUNT: usize = 11;
/// Number of job codes (code 31 is unused).
pub const NUM_JOBS: usize = 67;
/// Number of job filters.
pub const JOB_FILTER_COUNT: usize = 11;
/// Number of trigger types.
pub const TRIGGER_TYPE_COUNT: usize = 13;
/// Number of gang missions.
pub const GANG_MISSION_COUNT: usize = 11;
/// Number of action types.
pub const ACTION_TYPE_COUNT: usize = 12;
/// Number of image types.
pub const IMAGE_TYPE_COUNT: usize = 15;
/// Number of global game flags.
pub const GAME_FLAG_COUNT: usize = 5;

} // verus!
